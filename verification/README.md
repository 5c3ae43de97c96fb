# studio_effects

Background effects for a Linux webcam: a daemon that runs a GStreamer
pipeline from the camera to a virtual camera, with an optional segmentation
path that blurs or replaces the background, and a GTK control panel that edits
the settings file.

- `src/` is the verified library: the pipeline blueprint on the chosen GPU
  backend (`blueprint`), the
  switching of effects on a running pipeline (`effects`), camera selection
  (`camera`), the daemon's lifecycle decisions (`daemon`), segmentation pre-
  and post-processing (`segmentation`), the settings and their defaults
  (`settings`) and the text handling they need (`text`).
- `app/` is the program around it: the daemon's loop, GStreamer, ONNX Runtime,
  the settings files and the GTK panel (`studio_effects panel`).
- `tests/` runs the library on concrete values.
