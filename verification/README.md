# stm32f3-rtc

A driver for the real time clock of STM32F3 microcontrollers (reference manual RM0316),
written in Verus.

The library (`src/`) holds everything that can be computed without touching the hardware,
with its contracts proved:

- `datetime`: dates, times and their two-digit (BCD) form.
- `registers`: the bit layout of the RTC, RCC, PWR and EXTI registers that the driver uses,
  and the encoding and decoding of time, date and prescaler fields.
- `program`: register programs (`RegOp`): writes, read-modify-writes, waits and
  conditional steps, with a model of the hardware that runs them: write protection of
  the backup domain (PWR_CR.DBP) and of the RTC (RTC_WPR key sequence), initialization
  mode, the backup domain reset, and the ready flags that follow their enable bits.
- `effects`: what the programs do in that model: starting the clock, writing the time
  and the date (read back as written), with write protection on again afterwards.
- `rtc`: clock settings (source, prescalers) and the programs that start the clock and
  write the time and date; the decisions of a delay.
- `rtc_interrupt`, `wakeup`: the wakeup timer and its interrupt output.

`app/` owns the peripherals of `stm32f3xx-hal`, reads and writes their registers and runs
the programs that the library computes.
