# sch16t

Driver for the Murata SCH16T family of 6-axis IMUs, verified with Verus.

`src/` is the verified library. It holds no I/O: every procedure of the
sensor (start-up, full status dump, sampling) is a state machine that names
the next register operation and takes back its outcome, and the SPI
interface turns register operations into 48-bit SafeSPI frames and checks
the frames that come back.

- `crc8`: the frame checksum (CRC-8, polynomial 0x2F, initial value 0xFF),
  computed by the `crc` crate.
- `frame`: request and response frames, field by field and byte by byte.
- `settings`, `config`: the setting enums and the sensor configuration.
- `status`, `registers`, `sample`: the register map, status fields, and the
  measurements of a sample.
- `interface`: frame building and checking, the sticky sensor status and
  the read pipeline (the answer to a frame comes with the next frame).
- `ops`, `startup`, `sampling`, `sensor`: the sensor's procedures.

`app/` runs those procedures over an `embedded-hal-async` SPI device and
delay, and converts samples to SI units with `uom`.

Register layout used here (values are the 24-bit data fields of the frames):

| register | layout |
| --- | --- |
| outputs 0x01-0x06, 0x0A-0x0F | 20-bit two's complement in bits 19:0 |
| TEMP 0x10 | 16-bit two's complement, 100 LSB per degree Celsius |
| RATE_DCNT 0x11, ACC_DCNT 0x12 | x, y, z counters in bits 7:0, 15:8, 23:16 |
| FREQ_CNTR 0x13 | bits 15:0 |
| status 0x14-0x1F | one bit per flag, set when fine |
| CTRL_FILT_RATE 0x25, CTRL_FILT_ACC12 0x26 | filter codes of x, y, z in 3-bit fields |
| CTRL_RATE 0x28, CTRL_ACC12 0x29 | range twice, then decimation of x, y, z, 3-bit fields |
| CTRL_USER_IF 0x33 | sync, data ready, polarity, drive strength and supply bits |
| CTRL_MODE 0x35, CTRL_RESET 0x36 | enable / end of init bits, reset command |
