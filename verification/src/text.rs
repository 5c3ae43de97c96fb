//! Character-level text handling: equality, substring search, Unicode
//! white-space trimming, and the comma-separated camera list of the panel.

use vstd::prelude::*;

verus! {

/// Whether `c` has the Unicode `White_Space` property, the set that
/// `char::is_whitespace` tests.
pub open spec fn is_white_space(c: char) -> bool {
    let u = c as u32;
    ||| 0x09 <= u <= 0x0d
    ||| u == 0x20
    ||| u == 0x85
    ||| u == 0xa0
    ||| u == 0x1680
    ||| 0x2000 <= u <= 0x200a
    ||| u == 0x2028
    ||| u == 0x2029
    ||| u == 0x202f
    ||| u == 0x205f
    ||| u == 0x3000
}

/// `s` without its leading white space.
pub open spec fn trim_front(s: Seq<char>) -> Seq<char>
    decreases s.len(),
{
    if s.len() > 0 && is_white_space(s[0]) {
        trim_front(s.drop_first())
    } else {
        s
    }
}

/// `s` without its trailing white space.
pub open spec fn trim_back(s: Seq<char>) -> Seq<char>
    decreases s.len(),
{
    if s.len() > 0 && is_white_space(s.last()) {
        trim_back(s.drop_last())
    } else {
        s
    }
}

/// `s` without leading and trailing white space, as `str::trim` gives it.
pub open spec fn trim(s: Seq<char>) -> Seq<char> {
    trim_back(trim_front(s))
}

/// `pat` occurs in `s` starting at position `i`.
pub open spec fn occurs_at(s: Seq<char>, pat: Seq<char>, i: int) -> bool {
    &&& 0 <= i
    &&& i + pat.len() <= s.len()
    &&& s.subrange(i, i + pat.len()) == pat
}

/// `pat` occurs somewhere in `s`, as `str::contains` tests it.
pub open spec fn contains_text(s: Seq<char>, pat: Seq<char>) -> bool {
    exists|i: int| #[trigger] occurs_at(s, pat, i)
}

/// The pieces of `s` between occurrences of `sep`, in order, as `str::split`
/// yields them: one more piece than there are separators.
pub open spec fn split_at_char(s: Seq<char>, sep: char) -> Seq<Seq<char>>
    decreases s.len(),
{
    if s.len() == 0 {
        seq![Seq::<char>::empty()]
    } else {
        let front = split_at_char(s.drop_last(), sep);
        if s.last() == sep {
            front.push(Seq::<char>::empty())
        } else {
            front.update(front.len() - 1, front.last().push(s.last()))
        }
    }
}

/// The trimmed pieces that are not empty, in order.
pub open spec fn keep_trimmed(pieces: Seq<Seq<char>>) -> Seq<Seq<char>>
    decreases pieces.len(),
{
    if pieces.len() == 0 {
        Seq::empty()
    } else {
        let front = keep_trimmed(pieces.drop_last());
        let t = trim(pieces.last());
        if t.len() > 0 {
            front.push(t)
        } else {
            front
        }
    }
}

/// The camera entries that the panel reads from its text field: the text is
/// split at commas, each piece is trimmed, and empty pieces are dropped.
pub open spec fn camera_entries(text: Seq<char>) -> Seq<Seq<char>> {
    keep_trimmed(split_at_char(text, ','))
}

/// The items written one after another with `sep` between each two of them.
pub open spec fn joined(items: Seq<Seq<char>>, sep: Seq<char>) -> Seq<char>
    decreases items.len(),
{
    if items.len() == 0 {
        Seq::empty()
    } else if items.len() == 1 {
        items[0]
    } else {
        joined(items.drop_last(), sep) + sep + items.last()
    }
}

/// The character sequences of a sequence of strings.
pub open spec fn text_views(v: Seq<String>) -> Seq<Seq<char>> {
    v.map_values(|s: String| s@)
}

/// An entry that survives the panel's list editing unchanged: not empty, no
/// white space at either end, and no comma in it.
pub open spec fn is_clean_entry(e: Seq<char>) -> bool {
    &&& e.len() > 0
    &&& !is_white_space(e[0])
    &&& !is_white_space(e.last())
    &&& forall|k: int| 0 <= k < e.len() ==> e[k] != ','
}

/// Tests the Unicode `White_Space` property of one character.
pub fn white_space(c: char) -> (b: bool)
    ensures
        b == is_white_space(c),
{
    let u = c as u32;
    (0x09 <= u && u <= 0x0d) || u == 0x20 || u == 0x85 || u == 0xa0 || u == 0x1680 || (0x2000
        <= u && u <= 0x200a) || u == 0x2028 || u == 0x2029 || u == 0x202f || u == 0x205f || u
        == 0x3000
}

/// The characters of `s`, in order.
pub fn chars_of(s: &str) -> (v: Vec<char>)
    ensures
        v@ == s@,
{
    let n = s.unicode_len();
    let mut v: Vec<char> = Vec::new();
    let mut i: usize = 0;
    while i < n
        invariant
            n == s@.len(),
            i <= n,
            v@ == s@.subrange(0, i as int),
        decreases n - i,
    {
        v.push(s.get_char(i));
        i += 1;
    }
    proof {
        assert(v@ =~= s@);
    }
    v
}

/// Whether the two texts hold the same characters.
pub fn same_text(a: &str, b: &str) -> (r: bool)
    ensures
        r == (a@ == b@),
{
    let x = chars_of(a);
    let y = chars_of(b);
    if x.len() != y.len() {
        return false;
    }
    let mut i: usize = 0;
    while i < x.len()
        invariant
            x@ == a@,
            y@ == b@,
            x.len() == y.len(),
            i <= x.len(),
            forall|k: int| 0 <= k < i ==> x@[k] == y@[k],
        decreases x.len() - i,
    {
        if x[i] != y[i] {
            assert(a@[i as int] != b@[i as int]);
            return false;
        }
        i += 1;
    }
    proof {
        assert(a@ =~= b@);
    }
    true
}

/// Whether `pat` occurs in `s`.
pub fn contains(s: &str, pat: &str) -> (r: bool)
    ensures
        r == contains_text(s@, pat@),
{
    let x = chars_of(s);
    let p = chars_of(pat);
    let n = x.len();
    let m = p.len();
    if m > n {
        proof {
            assert forall|i: int| !#[trigger] occurs_at(s@, pat@, i) by {}
        }
        return false;
    }
    if m == 0 {
        proof {
            assert(s@.subrange(0, 0) =~= pat@);
            assert(occurs_at(s@, pat@, 0));
        }
        return true;
    }
    let mut i: usize = 0;
    while i <= n - m
        invariant
            x@ == s@,
            p@ == pat@,
            n == x.len(),
            m == p.len(),
            1 <= m <= n,
            i <= n - m + 1,
            forall|k: int| 0 <= k < i ==> !#[trigger] occurs_at(s@, pat@, k),
        decreases n - m + 1 - i,
    {
        let mut j: usize = 0;
        let mut matched = true;
        while j < m
            invariant
                x@ == s@,
                p@ == pat@,
                n == x.len(),
                m == p.len(),
                i + m <= n,
                j <= m,
                matched ==> forall|t: int| 0 <= t < j ==> x@[i + t] == p@[t],
                !matched ==> !occurs_at(s@, pat@, i as int),
            decreases m - j,
        {
            if x[i + j] != p[j] {
                proof {
                    if occurs_at(s@, pat@, i as int) {
                        assert(s@.subrange(i as int, i + m)[j as int] == pat@[j as int]);
                    }
                }
                matched = false;
            }
            j += 1;
        }
        if matched {
            proof {
                assert(s@.subrange(i as int, i + m) =~= pat@);
                assert(occurs_at(s@, pat@, i as int));
            }
            return true;
        }
        i += 1;
    }
    proof {
        assert forall|k: int| !#[trigger] occurs_at(s@, pat@, k) by {
            if 0 <= k < i {
            }
        }
    }
    false
}

/// The bounds of `v[start..end]` with its leading and trailing white space left out.
pub fn trimmed_range(v: &Vec<char>, start: usize, end: usize) -> (r: (usize, usize))
    requires
        start <= end <= v.len(),
    ensures
        start <= r.0 <= r.1 <= end,
        v@.subrange(r.0 as int, r.1 as int) == trim(v@.subrange(start as int, end as int)),
{
    let mut lo = start;
    while lo < end && white_space(v[lo])
        invariant
            start <= lo <= end <= v.len(),
            trim_front(v@.subrange(start as int, end as int)) == trim_front(
                v@.subrange(lo as int, end as int),
            ),
        decreases end - lo,
    {
        proof {
            assert(v@.subrange(lo as int, end as int).drop_first() =~= v@.subrange(
                lo + 1,
                end as int,
            ));
        }
        lo += 1;
    }
    proof {
        assert(trim_front(v@.subrange(lo as int, end as int)) == v@.subrange(lo as int, end as int));
    }
    let mut hi = end;
    while hi > lo && white_space(v[hi - 1])
        invariant
            start <= lo <= hi <= end <= v.len(),
            trim_back(v@.subrange(lo as int, end as int)) == trim_back(
                v@.subrange(lo as int, hi as int),
            ),
        decreases hi - lo,
    {
        proof {
            assert(v@.subrange(lo as int, hi as int).drop_last() =~= v@.subrange(
                lo as int,
                hi - 1,
            ));
        }
        hi -= 1;
    }
    (lo, hi)
}

proof fn lemma_split_nonempty(s: Seq<char>, sep: char)
    ensures
        split_at_char(s, sep).len() >= 1,
    decreases s.len(),
{
    if s.len() > 0 {
        lemma_split_nonempty(s.drop_last(), sep);
    }
}

/// Reads the camera list that the panel's text field holds: the text is split
/// at commas, each piece trimmed, and the empty pieces dropped.
pub fn parse_camera_list(text: &str) -> (r: Vec<String>)
    ensures
        text_views(r@) == camera_entries(text@),
{
    let v = chars_of(text);
    let n = v.len();
    let mut out: Vec<String> = Vec::new();
    let mut start: usize = 0;
    let mut i: usize = 0;
    let ghost mut done: Seq<Seq<char>> = Seq::empty();
    proof {
        assert(text@.take(0) =~= Seq::<char>::empty());
        assert(text@.subrange(0, 0) =~= Seq::<char>::empty());
        assert(text_views(out@) =~= Seq::<Seq<char>>::empty());
    }
    while i < n
        invariant
            v@ == text@,
            n == v.len(),
            start <= i <= n,
            split_at_char(text@.take(i as int), ',') == done.push(
                text@.subrange(start as int, i as int),
            ),
            text_views(out@) == keep_trimmed(done),
        decreases n - i,
    {
        let ghost cur = text@.subrange(start as int, i as int);
        proof {
            assert(text@.take(i + 1).drop_last() =~= text@.take(i as int));
            assert(text@.take(i + 1).last() == v@[i as int]);
        }
        if v[i] == ',' {
            let (lo, hi) = trimmed_range(&v, start, i);
            proof {
                assert(done.push(cur).drop_last() =~= done);
            }
            if lo < hi {
                let piece = String::from_str(text.substring_char(lo, hi));
                proof {
                    assert(text_views(out@.push(piece)) =~= text_views(out@).push(piece@));
                }
                out.push(piece);
            }
            proof {
                done = done.push(cur);
                assert(text@.subrange((i + 1) as int, (i + 1) as int) =~= Seq::<char>::empty());
            }
            start = i + 1;
        } else {
            proof {
                assert(cur.push(v@[i as int]) =~= text@.subrange(start as int, i + 1));
                assert(done.push(cur).update(done.len() as int, cur.push(v@[i as int]))
                    =~= done.push(text@.subrange(start as int, i + 1)));
            }
        }
        i += 1;
    }
    let (lo, hi) = trimmed_range(&v, start, n);
    let ghost cur = text@.subrange(start as int, n as int);
    proof {
        assert(text@.take(n as int) =~= text@);
        assert(done.push(cur).drop_last() =~= done);
    }
    if lo < hi {
        let piece = String::from_str(text.substring_char(lo, hi));
        proof {
            assert(text_views(out@.push(piece)) =~= text_views(out@).push(piece@));
        }
        out.push(piece);
    }
    out
}

/// Writes the items one after another with `sep` between each two of them.
pub fn join_entries(items: &Vec<String>, sep: &str) -> (r: String)
    ensures
        r@ == joined(text_views(items@), sep@),
{
    let mut res = String::new();
    let mut i: usize = 0;
    proof {
        assert(text_views(items@).take(0) =~= Seq::<Seq<char>>::empty());
    }
    while i < items.len()
        invariant
            i <= items.len(),
            res@ == joined(text_views(items@).take(i as int), sep@),
        decreases items.len() - i,
    {
        let ghost views = text_views(items@);
        proof {
            assert(views.take(i + 1).drop_last() =~= views.take(i as int));
            assert(views.take(i + 1).last() == items@[i as int]@);
        }
        if i > 0 {
            res.append(sep);
        }
        res.append(items[i].as_str());
        i += 1;
    }
    proof {
        assert(text_views(items@).take(items.len() as int) =~= text_views(items@));
    }
    res
}

proof fn lemma_split_plain_suffix(x: Seq<char>, y: Seq<char>, sep: char)
    requires
        forall|k: int| 0 <= k < y.len() ==> y[k] != sep,
    ensures
        split_at_char(x + y, sep) == split_at_char(x, sep).update(
            split_at_char(x, sep).len() - 1,
            split_at_char(x, sep).last() + y,
        ),
    decreases y.len(),
{
    let sx = split_at_char(x, sep);
    lemma_split_nonempty(x, sep);
    if y.len() == 0 {
        assert(x + y =~= x);
        assert(sx.last() + y =~= sx.last());
        assert(sx.update(sx.len() - 1, sx.last()) =~= sx);
    } else {
        let y2 = y.drop_last();
        lemma_split_plain_suffix(x, y2, sep);
        assert((x + y).drop_last() =~= x + y2);
        assert((x + y).last() == y.last());
        assert((sx.last() + y2).push(y.last()) =~= sx.last() + y);
        let f = sx.update(sx.len() - 1, sx.last() + y2);
        assert(f.update(f.len() - 1, f.last().push(y.last())) =~= sx.update(
            sx.len() - 1,
            sx.last() + y,
        ));
    }
}

proof fn lemma_trim_clean(e: Seq<char>)
    requires
        is_clean_entry(e),
    ensures
        trim(e) == e,
{
}

proof fn lemma_trim_after_space(e: Seq<char>)
    requires
        is_clean_entry(e),
    ensures
        trim(seq![' '] + e) == e,
{
    let s = seq![' '] + e;
    assert(s[0] == ' ');
    assert(is_white_space(' '));
    assert(s.drop_first() =~= e);
    assert(trim_front(s) == trim_front(e));
    assert(trim_front(e) == e);
    assert(trim_back(e) == e);
}

/// Editing the panel's camera list without changing it keeps the list: a list
/// of clean entries, shown joined by ", " and read back, is the same list.
pub proof fn camera_list_round_trip(items: Seq<Seq<char>>)
    requires
        forall|k: int| 0 <= k < items.len() ==> is_clean_entry(#[trigger] items[k]),
    ensures
        camera_entries(joined(items, seq![',', ' '])) == items,
    decreases items.len(),
{
    let sep = seq![',', ' '];
    if items.len() == 0 {
        let s = split_at_char(Seq::<char>::empty(), ',');
        assert(s =~= seq![Seq::<char>::empty()]);
        assert(s.drop_last() =~= Seq::<Seq<char>>::empty());
        assert(trim(Seq::<char>::empty()) =~= Seq::<char>::empty());
        assert(keep_trimmed(s.drop_last()) =~= Seq::<Seq<char>>::empty());
        assert(keep_trimmed(s) =~= items);
    } else if items.len() == 1 {
        let e = items[0];
        assert(is_clean_entry(items[0]));
        lemma_split_plain_suffix(Seq::<char>::empty(), e, ',');
        assert(Seq::<char>::empty() + e =~= e);
        let s = split_at_char(e, ',');
        assert(s =~= seq![e]);
        assert(s.drop_last() =~= Seq::<Seq<char>>::empty());
        lemma_trim_clean(e);
        assert(keep_trimmed(s.drop_last()) =~= Seq::<Seq<char>>::empty());
        assert(keep_trimmed(s) =~= items);
    } else {
        let front = items.drop_last();
        let e = items.last();
        assert(is_clean_entry(items[items.len() - 1]));
        assert forall|k: int| 0 <= k < front.len() implies is_clean_entry(#[trigger] front[k]) by {
            assert(front[k] == items[k]);
        }
        camera_list_round_trip(front);
        let jf = joined(front, sep);
        let p = jf.push(',');
        let y = seq![' '] + e;
        assert(joined(items, sep) == jf + sep + e);
        assert(jf + sep + e =~= p + y);
        assert forall|k: int| 0 <= k < y.len() implies y[k] != ',' by {
            if k > 0 {
                assert(y[k] == e[k - 1]);
            }
        }
        lemma_split_nonempty(jf, ',');
        assert(p.drop_last() =~= jf);
        let sj = split_at_char(jf, ',');
        assert(split_at_char(p, ',') == sj.push(Seq::<char>::empty()));
        lemma_split_plain_suffix(p, y, ',');
        assert(Seq::<char>::empty() + y =~= y);
        let whole = split_at_char(p + y, ',');
        assert(whole =~= sj.push(y));
        assert(whole.drop_last() =~= sj);
        lemma_trim_after_space(e);
        assert(keep_trimmed(whole) == front.push(e));
        assert(front.push(e) =~= items);
    }
}

/// `pat` is found in `s` exactly when `s` is some text, then `pat`, then some
/// more text.
pub proof fn contains_means_infix(s: Seq<char>, pat: Seq<char>)
    ensures
        contains_text(s, pat) <==> exists|a: Seq<char>, b: Seq<char>| s == a + pat + b,
{
    if contains_text(s, pat) {
        let i = choose|i: int| #[trigger] occurs_at(s, pat, i);
        let a = s.take(i);
        let b = s.subrange(i + pat.len(), s.len() as int);
        assert(s =~= a + pat + b);
    }
    if exists|a: Seq<char>, b: Seq<char>| s == a + pat + b {
        let (a, b) = choose|a: Seq<char>, b: Seq<char>| s == a + pat + b;
        assert(s.subrange(a.len() as int, (a.len() + pat.len()) as int) =~= pat);
        assert(occurs_at(s, pat, a.len() as int));
    }
}

proof fn lemma_trim_front_shape(s: Seq<char>)
    ensures
        exists|n: int| 0 <= n <= s.len() && trim_front(s) == s.subrange(n, s.len() as int),
        trim_front(s).len() > 0 ==> !is_white_space(trim_front(s)[0]),
    decreases s.len(),
{
    if s.len() > 0 && is_white_space(s[0]) {
        lemma_trim_front_shape(s.drop_first());
        let n = choose|n: int|
            0 <= n <= s.drop_first().len() && trim_front(s.drop_first()) == s.drop_first().subrange(
                n,
                s.drop_first().len() as int,
            );
        assert(s.drop_first().subrange(n, s.drop_first().len() as int) =~= s.subrange(
            n + 1,
            s.len() as int,
        ));
    } else {
        assert(s.subrange(0, s.len() as int) =~= s);
    }
}

proof fn lemma_trim_back_shape(s: Seq<char>)
    ensures
        exists|m: int| 0 <= m <= s.len() && trim_back(s) == s.subrange(0, m),
        trim_back(s).len() > 0 ==> !is_white_space(trim_back(s).last()),
    decreases s.len(),
{
    if s.len() > 0 && is_white_space(s.last()) {
        lemma_trim_back_shape(s.drop_last());
        let m = choose|m: int|
            0 <= m <= s.drop_last().len() && trim_back(s.drop_last()) == s.drop_last().subrange(
                0,
                m,
            );
        assert(s.drop_last().subrange(0, m) =~= s.subrange(0, m));
    } else {
        assert(s.subrange(0, s.len() as int) =~= s);
    }
}

proof fn lemma_split_pieces_lack_sep(s: Seq<char>, sep: char)
    ensures
        forall|k: int, j: int|
            0 <= k < split_at_char(s, sep).len() && 0 <= j < split_at_char(s, sep)[k].len()
                ==> #[trigger] split_at_char(s, sep)[k][j] != sep,
    decreases s.len(),
{
    lemma_split_nonempty(s, sep);
    if s.len() > 0 {
        let front = split_at_char(s.drop_last(), sep);
        lemma_split_pieces_lack_sep(s.drop_last(), sep);
        lemma_split_nonempty(s.drop_last(), sep);
        if s.last() != sep {
            let whole = split_at_char(s, sep);
            assert forall|k: int, j: int|
                0 <= k < whole.len() && 0 <= j < whole[k].len() implies #[trigger] whole[k][j]
                != sep by {
                if k == front.len() - 1 {
                    let last = front.last().push(s.last());
                    assert(whole[k] == last);
                    if j < front.last().len() {
                        assert(last[j] == front[k][j]);
                    }
                } else {
                    assert(whole[k] == front[k]);
                }
            }
        } else {
            let whole = split_at_char(s, sep);
            assert forall|k: int, j: int|
                0 <= k < whole.len() && 0 <= j < whole[k].len() implies #[trigger] whole[k][j]
                != sep by {
                if k < front.len() {
                    assert(whole[k] == front[k]);
                }
            }
        }
    }
}

proof fn lemma_kept_are_trimmed_pieces(pieces: Seq<Seq<char>>)
    ensures
        forall|k: int|
            #![trigger keep_trimmed(pieces)[k]]
            0 <= k < keep_trimmed(pieces).len() ==> exists|m: int|
                0 <= m < pieces.len() && keep_trimmed(pieces)[k] == trim(#[trigger] pieces[m])
                    && keep_trimmed(pieces)[k].len() > 0,
    decreases pieces.len(),
{
    if pieces.len() > 0 {
        let front = pieces.drop_last();
        lemma_kept_are_trimmed_pieces(front);
        let kf = keep_trimmed(front);
        let kept = keep_trimmed(pieces);
        assert forall|k: int| #![trigger kept[k]] 0 <= k < kept.len() implies exists|m: int|
            0 <= m < pieces.len() && kept[k] == trim(#[trigger] pieces[m]) && kept[k].len() > 0 by {
            if k < kf.len() {
                let m = choose|m: int|
                    0 <= m < front.len() && kf[k] == trim(#[trigger] front[m]) && kf[k].len() > 0;
                assert(kept[k] == kf[k]);
                assert(front[m] == pieces[m]);
            } else {
                assert(kept[k] == trim(pieces[pieces.len() - 1]));
            }
        }
    }
}

/// Every camera entry read from the panel's text is clean: not empty, with no
/// white space at either end and no comma in it.
pub proof fn camera_entries_are_clean(text: Seq<char>)
    ensures
        forall|k: int|
            0 <= k < camera_entries(text).len() ==> is_clean_entry(#[trigger] camera_entries(text)[k]),
{
    let pieces = split_at_char(text, ',');
    lemma_split_pieces_lack_sep(text, ',');
    lemma_kept_are_trimmed_pieces(pieces);
    assert forall|k: int| 0 <= k < camera_entries(text).len() implies is_clean_entry(
        #[trigger] camera_entries(text)[k],
    ) by {
        let e = camera_entries(text)[k];
        let m = choose|m: int|
            0 <= m < pieces.len() && e == trim(#[trigger] pieces[m]) && e.len() > 0;
        let p = pieces[m];
        let t = trim_front(p);
        lemma_trim_front_shape(p);
        lemma_trim_back_shape(t);
        let n = choose|n: int| 0 <= n <= p.len() && t == p.subrange(n, p.len() as int);
        let mm = choose|mm: int| 0 <= mm <= t.len() && trim_back(t) == t.subrange(0, mm);
        assert(e == t.subrange(0, mm));
        assert(e[0] == t[0]);
        assert forall|j: int| 0 <= j < e.len() implies e[j] != ',' by {
            assert(e[j] == p[n + j]);
            assert(p[n + j] == pieces[m][n + j]);
        }
    }
}

} // verus!
