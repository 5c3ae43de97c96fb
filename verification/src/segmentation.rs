//! The segmentation engine's own logic: which execution providers a backend
//! asks for, the reordering of an interleaved RGB frame into the planar layout
//! the model reads, and the mask made from the model's foreground scores.

use vstd::prelude::*;
use vstd::arithmetic::div_mod::{lemma_fundamental_div_mod, lemma_fundamental_div_mod_converse, lemma_mod_pos_bound};
use crate::text::same_text;

verus! {

/// A hardware back end that the inference runtime can be asked to use.
#[derive(Clone, Copy, Debug, PartialEq, Eq, Structural)]
pub enum ExecutionProvider {
    TensorRt,
    Cuda,
    OpenVino,
    CoreMl,
}

/// The operating system the engine runs on.
#[derive(Clone, Copy, Debug, PartialEq, Eq, Structural)]
pub enum Platform {
    MacOs,
    Linux,
    Other,
}

/// The execution providers registered for a backend setting, in order of
/// preference; none means the default CPU provider.
pub open spec fn backend_providers(backend: Seq<char>, platform: Platform) -> Seq<ExecutionProvider> {
    if backend == "nvidia"@ {
        seq![ExecutionProvider::TensorRt, ExecutionProvider::Cuda]
    } else if backend == "intel"@ {
        seq![ExecutionProvider::OpenVino]
    } else if backend == "amd"@ || backend == "npu"@ {
        if platform == Platform::MacOs {
            seq![ExecutionProvider::CoreMl]
        } else {
            Seq::empty()
        }
    } else {
        Seq::empty()
    }
}

/// The execution providers to register for a backend setting: TensorRT then
/// CUDA for "nvidia", OpenVINO for "intel", Core ML for "amd" or "npu" on
/// macOS, and none (the CPU) otherwise.
pub fn providers_for_backend(backend: &str, platform: Platform) -> (r: Vec<ExecutionProvider>)
    ensures
        r@ == backend_providers(backend@, platform),
{
    let mut r: Vec<ExecutionProvider> = Vec::new();
    if same_text(backend, "nvidia") {
        r.push(ExecutionProvider::TensorRt);
        r.push(ExecutionProvider::Cuda);
    } else if same_text(backend, "intel") {
        r.push(ExecutionProvider::OpenVino);
    } else if same_text(backend, "amd") || same_text(backend, "npu") {
        if platform == Platform::MacOs {
            r.push(ExecutionProvider::CoreMl);
        }
    }
    proof {
        assert(r@ =~= backend_providers(backend@, platform));
    }
    r
}

/// A camera frame: `height` rows of `width` pixels of `channels` bytes each,
/// row by row.
pub struct Frame {
    pub height: usize,
    pub width: usize,
    pub channels: usize,
    pub pixels: Vec<u8>,
}

/// The position of channel `ch` of pixel (`y`, `x`) in an interleaved frame.
pub open spec fn interleaved_index(width: int, channels: int, y: int, x: int, ch: int) -> int {
    (y * width + x) * channels + ch
}

/// The position of channel `ch` of pixel (`y`, `x`) in a planar tensor of
/// `height` × `width` planes.
pub open spec fn planar_index(height: int, width: int, ch: int, y: int, x: int) -> int {
    (ch * height + y) * width + x
}

proof fn lemma_planar_position(h: int, w: int, ch: int, y: int, x: int)
    requires
        0 <= ch,
        0 <= y < h,
        0 <= x < w,
    ensures
        planar_index(h, w, ch, y, x) / (h * w) == ch,
        planar_index(h, w, ch, y, x) % (h * w) == y * w + x,
        0 <= planar_index(h, w, ch, y, x) < (ch + 1) * (h * w),
{
    assert(0 <= y * w + x < h * w) by (nonlinear_arith)
        requires
            0 <= y < h,
            0 <= x < w,
    ;
    assert(planar_index(h, w, ch, y, x) == ch * (h * w) + (y * w + x)) by (nonlinear_arith);
    assert((ch + 1) * (h * w) == ch * (h * w) + h * w) by (nonlinear_arith);
    lemma_fundamental_div_mod_converse(planar_index(h, w, ch, y, x), h * w, ch, y * w + x);
}

/// The first three channels of the frame, one plane per channel (red, green,
/// blue), each plane row by row: the layout the model takes as input.
pub fn planar_rgb(frame: &Frame) -> (r: Vec<u8>)
    requires
        frame.height * frame.width > 0 ==> frame.channels >= 3,
        frame.pixels.len() == frame.height * frame.width * frame.channels,
    ensures
        r.len() == 3 * frame.height * frame.width,
        forall|ch: int, y: int, x: int|
            0 <= ch < 3 && 0 <= y < frame.height && 0 <= x < frame.width ==> #[trigger] r@[planar_index(
                frame.height as int,
                frame.width as int,
                ch,
                y,
                x,
            )] == frame.pixels@[interleaved_index(frame.width as int, frame.channels as int, y, x, ch)],
{
    let h = frame.height;
    let w = frame.width;
    let c = frame.channels;
    if h == 0 || w == 0 {
        proof {
            assert(3 * h * w == 0) by (nonlinear_arith)
                requires
                    h == 0 || w == 0,
            ;
        }
        return Vec::new();
    }
    proof {
        assert(h * w > 0) by (nonlinear_arith)
            requires
                h > 0,
                w > 0,
        ;
        assert(h * w <= h * w * c && 3 * (h * w) <= h * w * c) by (nonlinear_arith)
            requires
                c >= 3,
        ;
    }
    let hw = h * w;
    let n = 3 * hw;
    let mut r: Vec<u8> = Vec::new();
    let mut k: usize = 0;
    while k < n
        invariant
            h == frame.height,
            w == frame.width,
            c == frame.channels,
            c >= 3,
            hw == h * w,
            n == 3 * hw,
            n <= frame.pixels.len(),
            frame.pixels.len() == hw * c,
            k <= n,
            r.len() == k,
            forall|j: int|
                0 <= j < k ==> #[trigger] r@[j] == frame.pixels@[(j % (hw as int)) * c + j / (
                hw as int)],
        decreases n - k,
    {
        proof {
            lemma_fundamental_div_mod(k as int, hw as int);
            lemma_mod_pos_bound(k as int, hw as int);
            let q = k as int / hw as int;
            let p = k as int % hw as int;
            assert(q < 3) by (nonlinear_arith)
                requires
                    hw > 0,
                    k == hw * q + p,
                    0 <= p,
                    k < 3 * hw,
            ;
            assert(0 <= q) by (nonlinear_arith)
                requires
                    hw > 0,
                    k == hw * q + p,
                    p < hw,
                    0 <= k,
            ;
            assert(p * c + q < hw * c) by (nonlinear_arith)
                requires
                    0 <= p < hw,
                    0 <= q < 3,
                    c >= 3,
            ;
            assert(0 <= p * c) by (nonlinear_arith)
                requires
                    0 <= p,
                    c >= 3,
            ;
        }
        let value = frame.pixels[(k % hw) * c + k / hw];
        r.push(value);
        k += 1;
    }
    proof {
        assert forall|ch: int, y: int, x: int|
            0 <= ch < 3 && 0 <= y < h && 0 <= x < w implies #[trigger] r@[planar_index(
            h as int,
            w as int,
            ch,
            y,
            x,
        )] == frame.pixels@[interleaved_index(w as int, c as int, y, x, ch)] by {
            lemma_planar_position(h as int, w as int, ch, y, x);
            assert((ch + 1) * (h * w) <= 3 * (h * w)) by (nonlinear_arith)
                requires
                    ch < 3,
                    h * w >= 0,
            ;
        }
        assert(3 * h * w == 3 * (h * w)) by (nonlinear_arith);
    }
    r
}

/// The per-pixel statement of `planar_rgb` fixes its whole result: any two
/// sequences that meet it for the same frame are equal, so equal frames give
/// equal inputs to the model.
pub proof fn planar_rgb_result_is_determined(
    h: int,
    w: int,
    c: int,
    pixels: Seq<u8>,
    r1: Seq<u8>,
    r2: Seq<u8>,
)
    requires
        h >= 0,
        w >= 0,
        r1.len() == 3 * h * w,
        r2.len() == 3 * h * w,
        forall|ch: int, y: int, x: int|
            0 <= ch < 3 && 0 <= y < h && 0 <= x < w ==> #[trigger] r1[planar_index(h, w, ch, y, x)]
                == pixels[interleaved_index(w, c, y, x, ch)],
        forall|ch: int, y: int, x: int|
            0 <= ch < 3 && 0 <= y < h && 0 <= x < w ==> #[trigger] r2[planar_index(h, w, ch, y, x)]
                == pixels[interleaved_index(w, c, y, x, ch)],
    ensures
        r1 == r2,
{
    assert forall|k: int| 0 <= k < r1.len() implies r1[k] == r2[k] by {
        let hw = h * w;
        assert(3 * h * w == 3 * hw) by (nonlinear_arith)
            requires
                hw == h * w,
        ;
        assert(hw > 0) by (nonlinear_arith)
            requires
                0 <= k < 3 * hw,
        ;
        assert(w > 0) by (nonlinear_arith)
            requires
                hw == h * w,
                hw > 0,
                h >= 0,
                w >= 0,
        ;
        lemma_fundamental_div_mod(k, hw);
        lemma_mod_pos_bound(k, hw);
        let ch = k / hw;
        let p = k % hw;
        lemma_fundamental_div_mod(p, w);
        lemma_mod_pos_bound(p, w);
        let y = p / w;
        let x = p % w;
        assert(0 <= ch < 3) by (nonlinear_arith)
            requires
                hw > 0,
                k == hw * ch + p,
                0 <= p < hw,
                0 <= k < 3 * hw,
        ;
        assert(0 <= y < h) by (nonlinear_arith)
            requires
                w > 0,
                p == w * y + x,
                0 <= x < w,
                0 <= p < hw,
                hw == h * w,
        ;
        assert(planar_index(h, w, ch, y, x) == k) by (nonlinear_arith)
            requires
                k == hw * ch + p,
                p == w * y + x,
                hw == h * w,
        ;
        assert(r1[planar_index(h, w, ch, y, x)] == r2[planar_index(h, w, ch, y, x)]);
    }
    assert(r1 =~= r2);
}

/// What the model reported: the shape of its output tensor and, for each
/// element in row-major order, whether its foreground score is above one half.
pub struct ScoreMap {
    pub shape: Vec<usize>,
    pub foreground: Vec<bool>,
}

/// The element count of a four-dimensional shape.
pub open spec fn volume4(s: Seq<usize>) -> int {
    s[0] * s[1] * s[2] * s[3]
}

/// Pixel (`y`, `x`) is foreground: the output is four-dimensional, its first
/// image and first class hold the pixel, and its score there is above one half.
pub open spec fn is_foreground(shape: Seq<usize>, foreground: Seq<bool>, y: int, x: int) -> bool {
    &&& shape.len() == 4
    &&& shape[0] > 0
    &&& shape[1] > 0
    &&& y < shape[2]
    &&& x < shape[3]
    &&& foreground[y * shape[3] + x]
}

/// The mask value of a pixel: full for foreground, empty otherwise.
pub open spec fn mask_value(shape: Seq<usize>, foreground: Seq<bool>, y: int, x: int) -> u8 {
    if is_foreground(shape, foreground, y, x) {
        255
    } else {
        0
    }
}

/// The segmentation mask of a `height` × `width` frame, row by row: 255 where
/// the model scored the pixel as foreground, 0 elsewhere, including pixels the
/// output does not cover.
pub fn segmentation_mask(height: usize, width: usize, scores: &ScoreMap) -> (r: Vec<u8>)
    requires
        height * width <= usize::MAX,
        scores.shape.len() == 4 ==> scores.foreground.len() == volume4(scores.shape@),
    ensures
        r.len() == height * width,
        forall|y: int, x: int|
            0 <= y < height && 0 <= x < width ==> #[trigger] r@[y * width + x] == mask_value(
                scores.shape@,
                scores.foreground@,
                y,
                x,
            ),
{
    let n = height * width;
    let mut r: Vec<u8> = Vec::new();
    let mut k: usize = 0;
    while k < n
        invariant
            n == height * width,
            k <= n,
            r.len() == k,
            scores.shape.len() == 4 ==> scores.foreground.len() == volume4(scores.shape@),
            forall|j: int|
                0 <= j < k ==> #[trigger] r@[j] == mask_value(
                    scores.shape@,
                    scores.foreground@,
                    j / (width as int),
                    j % (width as int),
                ),
        decreases n - k,
    {
        proof {
            assert(width > 0) by (nonlinear_arith)
                requires
                    k < height * width,
            ;
            lemma_mod_pos_bound(k as int, width as int);
            lemma_fundamental_div_mod(k as int, width as int);
        }
        let y = k / width;
        let x = k % width;
        let mut fg = false;
        if scores.shape.len() == 4 {
            let s0 = scores.shape[0];
            let s1 = scores.shape[1];
            let s2 = scores.shape[2];
            let s3 = scores.shape[3];
            if s0 > 0 && s1 > 0 && y < s2 && x < s3 {
                proof {
                    assert(y * s3 + x < s2 * s3) by (nonlinear_arith)
                        requires
                            y < s2,
                            x < s3,
                    ;
                    assert(s2 * s3 <= s0 * s1 * s2 * s3) by (nonlinear_arith)
                        requires
                            s0 >= 1,
                            s1 >= 1,
                    ;
                    assert(0 <= y * s3) by (nonlinear_arith);
                }
                fg = scores.foreground[y * s3 + x];
            }
        }
        r.push(
            if fg {
                255
            } else {
                0
            },
        );
        k += 1;
    }
    proof {
        assert forall|y: int, x: int|
            0 <= y < height && 0 <= x < width implies #[trigger] r@[y * width + x] == mask_value(
            scores.shape@,
            scores.foreground@,
            y,
            x,
        ) by {
            assert(0 <= y * width + x < height * width) by (nonlinear_arith)
                requires
                    0 <= y < height,
                    0 <= x < width,
            ;
            lemma_fundamental_div_mod_converse(y * width + x, width as int, y, x);
        }
    }
    r
}

/// The per-pixel statement of `segmentation_mask` fixes its whole result: any
/// two sequences that meet it for the same scores are equal, so equal model
/// outputs give equal masks.
pub proof fn segmentation_mask_is_determined(
    height: int,
    width: int,
    shape: Seq<usize>,
    foreground: Seq<bool>,
    r1: Seq<u8>,
    r2: Seq<u8>,
)
    requires
        height >= 0,
        width >= 0,
        r1.len() == height * width,
        r2.len() == height * width,
        forall|y: int, x: int|
            0 <= y < height && 0 <= x < width ==> #[trigger] r1[y * width + x] == mask_value(
                shape,
                foreground,
                y,
                x,
            ),
        forall|y: int, x: int|
            0 <= y < height && 0 <= x < width ==> #[trigger] r2[y * width + x] == mask_value(
                shape,
                foreground,
                y,
                x,
            ),
    ensures
        r1 == r2,
{
    assert forall|k: int| 0 <= k < r1.len() implies r1[k] == r2[k] by {
        assert(width > 0) by (nonlinear_arith)
            requires
                0 <= k < height * width,
                height >= 0,
                width >= 0,
        ;
        lemma_fundamental_div_mod(k, width);
        lemma_mod_pos_bound(k, width);
        let y = k / width;
        let x = k % width;
        assert(0 <= y < height) by (nonlinear_arith)
            requires
                width > 0,
                k == width * y + x,
                0 <= x < width,
                0 <= k < height * width,
        ;
        assert(y * width + x == k) by (nonlinear_arith)
            requires
                k == width * y + x,
        ;
        assert(r1[y * width + x] == r2[y * width + x]);
    }
    assert(r1 =~= r2);
}

/// The backend setting decides the providers: TensorRT and CUDA only for
/// "nvidia", OpenVINO only for "intel", Core ML only for "amd" or "npu" and
/// only on macOS; any other setting, "auto" and "cpu" among them, registers
/// none on every platform.
pub proof fn providers_follow_backend_setting(backend: Seq<char>, platform: Platform)
    ensures
        backend_providers(backend, platform).len() > 0 ==> (backend == "nvidia"@ || backend
            == "intel"@ || backend == "amd"@ || backend == "npu"@),
        backend_providers(backend, platform).contains(ExecutionProvider::TensorRt)
            ==> backend == "nvidia"@,
        backend_providers(backend, platform).contains(ExecutionProvider::Cuda) ==> backend
            == "nvidia"@,
        backend_providers(backend, platform).contains(ExecutionProvider::OpenVino) ==> backend
            == "intel"@,
        backend_providers(backend, platform).contains(ExecutionProvider::CoreMl) ==> platform
            == Platform::MacOs && (backend == "amd"@ || backend == "npu"@),
        backend == "nvidia"@ ==> backend_providers(backend, platform) == seq![
            ExecutionProvider::TensorRt,
            ExecutionProvider::Cuda,
        ],
        backend_providers("auto"@, platform).len() == 0,
        backend_providers("cpu"@, platform).len() == 0,
{
    let r = backend_providers(backend, platform);
    if r.contains(ExecutionProvider::TensorRt) || r.contains(ExecutionProvider::Cuda) || r.contains(
        ExecutionProvider::OpenVino,
    ) || r.contains(ExecutionProvider::CoreMl) {
        let k = choose|k: int| 0 <= k < r.len() && (r[k] == ExecutionProvider::TensorRt || r[k]
            == ExecutionProvider::Cuda || r[k] == ExecutionProvider::OpenVino || r[k]
            == ExecutionProvider::CoreMl);
    }
    reveal_strlit("nvidia");
    reveal_strlit("intel");
    reveal_strlit("amd");
    reveal_strlit("npu");
    reveal_strlit("auto");
    reveal_strlit("cpu");
    assert("nvidia"@.len() == 6 && "intel"@.len() == 5 && "auto"@.len() == 4);
    assert("amd"@[0] == 'a' && "npu"@[0] == 'n' && "cpu"@[0] == 'c' && "auto"@[0] == 'a');
    assert("amd"@[1] == 'm' && "auto"@[1] == 'u');
    assert("auto"@ != "amd"@);
    assert("cpu"@ != "amd"@ && "cpu"@ != "npu"@);
    assert("auto"@ != "nvidia"@ && "auto"@ != "intel"@ && "auto"@ != "npu"@);
    assert("cpu"@ != "nvidia"@ && "cpu"@ != "intel"@);
}

/// Each mask pixel reads the model output at its own row and column: for a
/// four-dimensional output of shape [n, c, H, W] with an image and a class,
/// pixel (y, x) inside H × W is full exactly when the row-major element
/// [0, 0, y, x] is foreground, and empty outside H × W.
pub proof fn mask_reads_element_at_pixel(shape: Seq<usize>, foreground: Seq<bool>, y: int, x: int)
    requires
        shape.len() == 4,
        shape[0] > 0,
        shape[1] > 0,
        0 <= y,
        0 <= x,
    ensures
        y < shape[2] && x < shape[3] ==> mask_value(shape, foreground, y, x) == if foreground[((0
            * shape[1] + 0) * shape[2] + y) * shape[3] + x] {
            255u8
        } else {
            0u8
        },
        !(y < shape[2] && x < shape[3]) ==> mask_value(shape, foreground, y, x) == 0,
{
    assert(((0 * shape[1] + 0) * shape[2] + y) * shape[3] + x == y * shape[3] + x) by (
    nonlinear_arith);
}

/// The planar layout puts the three planes one after another, each plane row
/// after row; the interleaved layout puts the pixels row after row, each with
/// its channels side by side.
pub proof fn layouts_are_row_major(h: int, w: int, c: int, ch: int, y: int, x: int)
    ensures
        planar_index(h, w, ch, y, x) == ch * (h * w) + y * w + x,
        interleaved_index(w, c, y, x, ch) == y * (w * c) + x * c + ch,
{
    assert(planar_index(h, w, ch, y, x) == ch * (h * w) + y * w + x) by (nonlinear_arith);
    assert(interleaved_index(w, c, y, x, ch) == y * (w * c) + x * c + ch) by (nonlinear_arith);
}

} // verus!
