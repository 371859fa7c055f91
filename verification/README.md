# orecchiette-sdr-usrp

A receive source for Ettus USRP devices (B210, B205mini), with its decisions verified
in Verus.

- `src/` is the verified core: the check of a request, the choice of the master clock,
  the steps that bring the device up, the channel-hop loop as a state machine with the
  laws of its runs, and the handling of sample buffers. Rates and gains are held as the
  bit patterns of IEEE 754 doubles, so that the core's arithmetic on them is proved.
- `tests/` runs the core on concrete values, among them a comparison of the bit-pattern
  arithmetic with the hardware's.
- `app/` owns the device, the capture thread and the clock. It performs the actions that
  the core asks for and reports the events back. It works with ordinary floating-point
  numbers, which are not verified there. It needs the UHD library.
