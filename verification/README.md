# sdr_firmware

Firmware library for an STM32G474 software-defined radio transceiver
(uSDX/truSDX style: quadrature sampling detector, Si5351A synthesizer,
Class-E H-bridge PA), written in Verus so that its logic carries proved
contracts.

## Layout

- `src/` — the verified library.
  - `types`, `config` — frequencies, bands, modes, power levels, SWR
    readings; pin, DMA and timer configuration.
  - `radio` — radio state and events, VFOs and memories, the CW keyer
    (iambic A/B, bug, ultimatic, straight) and Morse character encoding,
    the transmit controller with T/R sequencing, timeout and SWR
    protection.
  - `dsp` — Si5351 divider synthesis, fixed-point FIR filtering, the NCO
    phase accumulator, filter selection and spectrum bookkeeping.
  - `hal` — GPIO state machines, ADC/DAC sample types and buffers, I2C
    register plans, PWM duty arithmetic, clocks and the encoder counter.
  - `drivers` — Si5351A and SSD1306 register/transfer plans, the frame
    buffer, the quadrature decoder, acceleration and button handling.
  - `protocol` — the Kenwood-style CAT parser and response builder.
  - `ui`, `usb`, `power` — menu navigation, CDC line buffers and
    descriptors, temperature and power-source state.
- `tests/` — tests of the library.
- `app/` — the firmware around the library: the embassy executor and
  tasks, peripheral access (I2C, ADC, DAC, pins, clock), drawing with
  embedded-graphics, and the floating-point DSP and power code.

Contracts are stated over mathematical models (`Seq`, `int`, spec
functions); laws that relate several operations are public proof
functions named `lemma_*` beside the code they speak of.
