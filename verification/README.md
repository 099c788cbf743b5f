# apple_silicon_fan_control

The verified core of a fan controller for Apple Silicon Macs.

`src/` holds the library, verified with Verus: fan plans and the schedule of
controller writes that carries them out, sensor profiles and target
resolution, the helper protocol's decisions, the hardware report parser, the
controller's key names and value encodings, the saved-settings sync, and the
text of the control window and the helper's launch daemon.

`app/` is the command-line program around it: controller access, sockets,
files, processes, and the temperature arithmetic, which is floating point.

`tests/` runs the library on concrete values.
