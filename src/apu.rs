use vstd::prelude::*;

verus! {

/// The sound unit's configuration registers. No samples are produced: writes are kept in
/// decoded form and reads give them back.
#[derive(Debug)]
pub struct Apu {
    pub channel1_sweep_time: u8,
    pub channel1_sweep_dec: bool,
    pub channel1_sweep_shift: u8,
    pub channel1_wave: u8,
    pub channel1_length: u8,
    pub channel1_envelope_volume: u8,
    pub channel1_envelope_up: bool,
    pub channel1_envelope_sweeps: u8,
    pub channel2_wave: u8,
    pub channel2_length: u8,
    pub channel2_envelope_volume: u8,
    pub channel2_envelope_up: bool,
    pub channel2_envelope_sweeps: u8,
    pub channel3_enable: bool,
    pub channel3_length: u8,
    pub channel3_volume: u8,
    pub channel4_length: u8,
    pub channel4_envelope_volume: u8,
    pub channel4_envelope_up: bool,
    pub channel4_envelope_sweeps: u8,
    pub channel4_shift_freq: u8,
    pub channel4_counter_step: bool,
    pub channel4_div_ratio: u8,
    pub so2_output_enable: bool,
    pub so2_output_volume: u8,
    pub so1_output_enable: bool,
    pub so1_output_volume: u8,
    pub channel1_frequency: u16,
    pub channel1_counter_consecutive: bool,
    pub channel2_frequency: u16,
    pub channel2_counter_consecutive: bool,
    pub channel3_frequency: u16,
    pub channel3_counter_consecutive: bool,
    pub wave_pattern_ram: Vec<u8>,
    pub channel4_counter_consecutive: bool,
    pub output_select: u8,
    pub enable_sound_controller: bool,
    pub sound_4_on: bool,
    pub sound_3_on: bool,
    pub sound_2_on: bool,
    pub sound_1_on: bool,
}

impl Apu {
    pub open spec fn chan1_sweep_reg(self) -> u8 {
        ((self.channel1_sweep_time & 0x07) << 4u8) | (if self.channel1_sweep_dec { 0x08u8 } else { 0u8 }) | (self.channel1_sweep_shift & 0x07)
    }

    pub open spec fn chan1_wavelength_reg(self) -> u8 {
        ((self.channel1_wave & 0x03) << 6u8) | (self.channel1_length & 0x3f)
    }

    pub open spec fn chan1_envelope_reg(self) -> u8 {
        ((self.channel1_envelope_volume & 0x0f) << 4u8) | (if self.channel1_envelope_up { 0x08u8 } else { 0u8 }) | (self.channel1_envelope_sweeps & 0x07)
    }

    pub open spec fn chan2_wavelength_reg(self) -> u8 {
        ((self.channel2_wave & 0x03) << 6u8) | (self.channel2_length & 0x3f)
    }

    pub open spec fn chan2_envelope_reg(self) -> u8 {
        ((self.channel2_envelope_volume & 0x0f) << 4u8) | (if self.channel2_envelope_up { 0x08u8 } else { 0u8 }) | (self.channel2_envelope_sweeps & 0x07)
    }

    pub open spec fn chan3_enable_reg(self) -> u8 {
        (if self.channel3_enable { 0x80u8 } else { 0u8 })
    }

    pub open spec fn chan3_length_reg(self) -> u8 {
        (self.channel3_length & 0xff)
    }

    pub open spec fn chan3_volume_reg(self) -> u8 {
        ((self.channel3_volume & 0x03) << 5u8)
    }

    pub open spec fn chan4_length_reg(self) -> u8 {
        (self.channel4_length & 0x3f)
    }

    pub open spec fn chan4_envelope_reg(self) -> u8 {
        ((self.channel4_envelope_volume & 0x0f) << 4u8) | (if self.channel4_envelope_up { 0x08u8 } else { 0u8 }) | (self.channel4_envelope_sweeps & 0x07)
    }

    pub open spec fn chan4_polycounter_reg(self) -> u8 {
        ((self.channel4_shift_freq & 0x0f) << 4u8) | (if self.channel4_counter_step { 0x08u8 } else { 0u8 }) | (self.channel4_div_ratio & 0x07)
    }

    pub open spec fn chan_control_reg(self) -> u8 {
        (if self.so2_output_enable { 0x80u8 } else { 0u8 }) | ((self.so2_output_volume & 0x07) << 4u8) | (if self.so1_output_enable { 0x08u8 } else { 0u8 }) | (self.so1_output_volume & 0x07)
    }

    pub open spec fn chan1_freq_hi_reg(self) -> u8 {
        (if self.channel1_counter_consecutive { 0x40u8 } else { 0u8 })
    }

    pub open spec fn chan2_freq_hi_reg(self) -> u8 {
        (if self.channel2_counter_consecutive { 0x40u8 } else { 0u8 })
    }

    pub open spec fn chan3_freq_hi_reg(self) -> u8 {
        (if self.channel3_counter_consecutive { 0x40u8 } else { 0u8 })
    }

    pub open spec fn chan4_counter_consec_reg(self) -> u8 {
        (if self.channel4_counter_consecutive { 0x40u8 } else { 0u8 })
    }

    pub open spec fn sound_on_reg_reg(self) -> u8 {
        (if self.enable_sound_controller { 0x80u8 } else { 0u8 }) | (if self.sound_4_on { 0x08u8 } else { 0u8 })
                | (if self.sound_3_on { 0x04u8 } else { 0u8 }) | (if self.sound_2_on { 0x02u8 } else { 0u8 })
                | (if self.sound_1_on { 0x01u8 } else { 0u8 })
    }

    pub open spec fn after_chan1_sweep(self, value: u8) -> Apu {
        Apu { channel1_sweep_time: (value >> 4u8) & 0x07, channel1_sweep_dec: (value >> 3u8) & 1 != 0, channel1_sweep_shift: value & 0x07, ..self }
    }

    pub open spec fn after_chan1_wavelength(self, value: u8) -> Apu {
        Apu { channel1_wave: (value >> 6u8) & 0x03, channel1_length: value & 0x3f, ..self }
    }

    pub open spec fn after_chan1_envelope(self, value: u8) -> Apu {
        Apu { channel1_envelope_volume: (value >> 4u8) & 0x0f, channel1_envelope_up: (value >> 3u8) & 1 != 0, channel1_envelope_sweeps: value & 0x07, ..self }
    }

    pub open spec fn after_chan2_wavelength(self, value: u8) -> Apu {
        Apu { channel2_wave: (value >> 6u8) & 0x03, channel2_length: value & 0x3f, ..self }
    }

    pub open spec fn after_chan2_envelope(self, value: u8) -> Apu {
        Apu { channel2_envelope_volume: (value >> 4u8) & 0x0f, channel2_envelope_up: (value >> 3u8) & 1 != 0, channel2_envelope_sweeps: value & 0x07, ..self }
    }

    pub open spec fn after_chan3_enable(self, value: u8) -> Apu {
        Apu { channel3_enable: (value >> 7u8) & 1 != 0, ..self }
    }

    pub open spec fn after_chan3_length(self, value: u8) -> Apu {
        Apu { channel3_length: value & 0xff, ..self }
    }

    pub open spec fn after_chan3_volume(self, value: u8) -> Apu {
        Apu { channel3_volume: (value >> 5u8) & 0x03, ..self }
    }

    pub open spec fn after_chan4_length(self, value: u8) -> Apu {
        Apu { channel4_length: value & 0x3f, ..self }
    }

    pub open spec fn after_chan4_envelope(self, value: u8) -> Apu {
        Apu { channel4_envelope_volume: (value >> 4u8) & 0x0f, channel4_envelope_up: (value >> 3u8) & 1 != 0, channel4_envelope_sweeps: value & 0x07, ..self }
    }

    pub open spec fn after_chan4_polycounter(self, value: u8) -> Apu {
        Apu { channel4_shift_freq: (value >> 4u8) & 0x0f, channel4_counter_step: (value >> 3u8) & 1 != 0, channel4_div_ratio: value & 0x07, ..self }
    }

    pub open spec fn after_chan_control(self, value: u8) -> Apu {
        Apu { so2_output_enable: (value >> 7u8) & 1 != 0, so2_output_volume: (value >> 4u8) & 0x07, so1_output_enable: (value >> 3u8) & 1 != 0, so1_output_volume: value & 0x07, ..self }
    }

    pub open spec fn after_chan1_freq_lo(self, value: u8) -> Apu {
        Apu { channel1_frequency: (self.channel1_frequency & 0x0700) | (value as u16), ..self }
    }

    pub open spec fn after_chan1_freq_hi(self, value: u8) -> Apu {
        Apu {
            sound_1_on: self.sound_1_on || (value >> 7u8) != 0,
            channel1_counter_consecutive: (value >> 6u8) & 1 != 0,
            channel1_frequency: (self.channel1_frequency & 0x00FF) | (((value & 0x07) as u16) << 8u16),
            ..self
        }
    }

    pub open spec fn after_chan2_freq_lo(self, value: u8) -> Apu {
        Apu { channel2_frequency: (self.channel2_frequency & 0x0700) | (value as u16), ..self }
    }

    pub open spec fn after_chan2_freq_hi(self, value: u8) -> Apu {
        Apu {
            sound_2_on: self.sound_2_on || (value >> 7u8) != 0,
            channel2_counter_consecutive: (value >> 6u8) & 1 != 0,
            channel2_frequency: (self.channel2_frequency & 0x00FF) | (((value & 0x07) as u16) << 8u16),
            ..self
        }
    }

    pub open spec fn after_chan3_freq_lo(self, value: u8) -> Apu {
        Apu { channel3_frequency: (self.channel3_frequency & 0x0700) | (value as u16), ..self }
    }

    pub open spec fn after_chan3_freq_hi(self, value: u8) -> Apu {
        Apu {
            sound_3_on: self.sound_3_on || (value >> 7u8) != 0,
            channel3_counter_consecutive: (value >> 6u8) & 1 != 0,
            channel3_frequency: (self.channel3_frequency & 0x00FF) | (((value & 0x07) as u16) << 8u16),
            ..self
        }
    }

    pub open spec fn after_chan4_counter_consec(self, value: u8) -> Apu {
        Apu {
            sound_4_on: self.sound_4_on || (value >> 7u8) != 0,
            channel4_counter_consecutive: (value >> 6u8) & 1 != 0,
            ..self
        }
    }

    pub open spec fn after_sound_on_reg(self, value: u8) -> Apu {
        Apu { enable_sound_controller: value & 0x80 != 0, ..self }
    }

    /// The register values after the boot program.
    pub open spec fn is_initial(self) -> bool {
        &&& self.channel1_sweep_time == 0u8
        &&& self.channel1_sweep_dec == false
        &&& self.channel1_sweep_shift == 0u8
        &&& self.channel1_wave == 2u8
        &&& self.channel1_length == 0x3Fu8
        &&& self.channel1_envelope_volume == 0x0Fu8
        &&& self.channel1_envelope_up == false
        &&& self.channel1_envelope_sweeps == 3u8
        &&& self.channel2_wave == 2u8
        &&& self.channel2_length == 0x3Fu8
        &&& self.channel2_envelope_volume == 0u8
        &&& self.channel2_envelope_up == false
        &&& self.channel2_envelope_sweeps == 0u8
        &&& self.channel3_enable == false
        &&& self.channel3_length == 0u8
        &&& self.channel3_volume == 0u8
        &&& self.channel4_length == 0u8
        &&& self.channel4_envelope_volume == 0u8
        &&& self.channel4_envelope_up == false
        &&& self.channel4_envelope_sweeps == 0u8
        &&& self.channel4_shift_freq == 0u8
        &&& self.channel4_counter_step == false
        &&& self.channel4_div_ratio == 0u8
        &&& self.so2_output_enable == false
        &&& self.so2_output_volume == 7u8
        &&& self.so1_output_enable == false
        &&& self.so1_output_volume == 7u8
        &&& self.channel1_frequency == 0x70u16
        &&& self.channel1_counter_consecutive == false
        &&& self.channel2_frequency == 0x70u16
        &&& self.channel2_counter_consecutive == false
        &&& self.channel3_frequency == 0u16
        &&& self.channel3_counter_consecutive == false
        &&& self.channel4_counter_consecutive == false
        &&& self.output_select == 0xF3u8
        &&& self.enable_sound_controller == true
        &&& self.sound_4_on == false
        &&& self.sound_3_on == false
        &&& self.sound_2_on == false
        &&& self.sound_1_on == true
        &&& self.wave_pattern_ram@ == Seq::new(16, |i: int| 0u8)
    }

    pub fn new() -> (r: Apu)
        ensures
            r.is_initial(),
    {
        let r = Apu {
            channel1_sweep_time: 0,
            channel1_sweep_dec: false,
            channel1_sweep_shift: 0,
            channel1_wave: 2,
            channel1_length: 0x3F,
            channel1_envelope_volume: 0x0F,
            channel1_envelope_up: false,
            channel1_envelope_sweeps: 3,
            channel2_wave: 2,
            channel2_length: 0x3F,
            channel2_envelope_volume: 0,
            channel2_envelope_up: false,
            channel2_envelope_sweeps: 0,
            channel3_enable: false,
            channel3_length: 0,
            channel3_volume: 0,
            channel4_length: 0,
            channel4_envelope_volume: 0,
            channel4_envelope_up: false,
            channel4_envelope_sweeps: 0,
            channel4_shift_freq: 0,
            channel4_counter_step: false,
            channel4_div_ratio: 0,
            so2_output_enable: false,
            so2_output_volume: 7,
            so1_output_enable: false,
            so1_output_volume: 7,
            channel1_frequency: 0x70,
            channel1_counter_consecutive: false,
            channel2_frequency: 0x70,
            channel2_counter_consecutive: false,
            channel3_frequency: 0,
            channel3_counter_consecutive: false,
            wave_pattern_ram: vec![0u8; 16],
            channel4_counter_consecutive: false,
            output_select: 0xF3,
            enable_sound_controller: true,
            sound_4_on: false,
            sound_3_on: false,
            sound_2_on: false,
            sound_1_on: true,
        };
        assert(r.wave_pattern_ram@ =~= Seq::new(16, |i: int| 0u8));
        r
    }

    /// NR10: sweep time, direction and shift of channel 1.
    pub fn read_chan1_sweep(&self) -> (r: u8)
        ensures
            r == self.chan1_sweep_reg(),
    {
        ((self.channel1_sweep_time & 0x07) << 4u8) | (if self.channel1_sweep_dec { 0x08u8 } else { 0u8 }) | (self.channel1_sweep_shift & 0x07)
    }

    /// NR10: sweep time, direction and shift of channel 1.
    pub fn write_chan1_sweep(&mut self, value: u8)
        ensures
            *final(self) == old(self).after_chan1_sweep(value),
    {
        self.channel1_sweep_time = (value >> 4u8) & 0x07;
        self.channel1_sweep_dec = (value >> 3u8) & 1 != 0;
        self.channel1_sweep_shift = value & 0x07;
    }

    /// NR11: duty and length of channel 1.
    pub fn read_chan1_wavelength(&self) -> (r: u8)
        ensures
            r == self.chan1_wavelength_reg(),
    {
        ((self.channel1_wave & 0x03) << 6u8) | (self.channel1_length & 0x3f)
    }

    /// NR11: duty and length of channel 1.
    pub fn write_chan1_wavelength(&mut self, value: u8)
        ensures
            *final(self) == old(self).after_chan1_wavelength(value),
    {
        self.channel1_wave = (value >> 6u8) & 0x03;
        self.channel1_length = value & 0x3f;
    }

    /// NR12: volume envelope of channel 1.
    pub fn read_chan1_envelope(&self) -> (r: u8)
        ensures
            r == self.chan1_envelope_reg(),
    {
        ((self.channel1_envelope_volume & 0x0f) << 4u8) | (if self.channel1_envelope_up { 0x08u8 } else { 0u8 }) | (self.channel1_envelope_sweeps & 0x07)
    }

    /// NR12: volume envelope of channel 1.
    pub fn write_chan1_envelope(&mut self, value: u8)
        ensures
            *final(self) == old(self).after_chan1_envelope(value),
    {
        self.channel1_envelope_volume = (value >> 4u8) & 0x0f;
        self.channel1_envelope_up = (value >> 3u8) & 1 != 0;
        self.channel1_envelope_sweeps = value & 0x07;
    }

    /// NR21: duty and length of channel 2.
    pub fn read_chan2_wavelength(&self) -> (r: u8)
        ensures
            r == self.chan2_wavelength_reg(),
    {
        ((self.channel2_wave & 0x03) << 6u8) | (self.channel2_length & 0x3f)
    }

    /// NR21: duty and length of channel 2.
    pub fn write_chan2_wavelength(&mut self, value: u8)
        ensures
            *final(self) == old(self).after_chan2_wavelength(value),
    {
        self.channel2_wave = (value >> 6u8) & 0x03;
        self.channel2_length = value & 0x3f;
    }

    /// NR22: volume envelope of channel 2.
    pub fn read_chan2_envelope(&self) -> (r: u8)
        ensures
            r == self.chan2_envelope_reg(),
    {
        ((self.channel2_envelope_volume & 0x0f) << 4u8) | (if self.channel2_envelope_up { 0x08u8 } else { 0u8 }) | (self.channel2_envelope_sweeps & 0x07)
    }

    /// NR22: volume envelope of channel 2.
    pub fn write_chan2_envelope(&mut self, value: u8)
        ensures
            *final(self) == old(self).after_chan2_envelope(value),
    {
        self.channel2_envelope_volume = (value >> 4u8) & 0x0f;
        self.channel2_envelope_up = (value >> 3u8) & 1 != 0;
        self.channel2_envelope_sweeps = value & 0x07;
    }

    /// NR30: channel 3 on or off.
    pub fn read_chan3_enable(&self) -> (r: u8)
        ensures
            r == self.chan3_enable_reg(),
    {
        (if self.channel3_enable { 0x80u8 } else { 0u8 })
    }

    /// NR30: channel 3 on or off.
    pub fn write_chan3_enable(&mut self, value: u8)
        ensures
            *final(self) == old(self).after_chan3_enable(value),
    {
        self.channel3_enable = (value >> 7u8) & 1 != 0;
    }

    /// NR31: length of channel 3.
    pub fn read_chan3_length(&self) -> (r: u8)
        ensures
            r == self.chan3_length_reg(),
    {
        (self.channel3_length & 0xff)
    }

    /// NR31: length of channel 3.
    pub fn write_chan3_length(&mut self, value: u8)
        ensures
            *final(self) == old(self).after_chan3_length(value),
    {
        self.channel3_length = value & 0xff;
    }

    /// NR32: output level of channel 3, bits 6..5.
    pub fn read_chan3_volume(&self) -> (r: u8)
        ensures
            r == self.chan3_volume_reg(),
    {
        ((self.channel3_volume & 0x03) << 5u8)
    }

    /// NR32: output level of channel 3, bits 6..5.
    pub fn write_chan3_volume(&mut self, value: u8)
        ensures
            *final(self) == old(self).after_chan3_volume(value),
    {
        self.channel3_volume = (value >> 5u8) & 0x03;
    }

    /// NR41: length of channel 4.
    pub fn read_chan4_length(&self) -> (r: u8)
        ensures
            r == self.chan4_length_reg(),
    {
        (self.channel4_length & 0x3f)
    }

    /// NR41: length of channel 4.
    pub fn write_chan4_length(&mut self, value: u8)
        ensures
            *final(self) == old(self).after_chan4_length(value),
    {
        self.channel4_length = value & 0x3f;
    }

    /// NR42: volume envelope of channel 4.
    pub fn read_chan4_envelope(&self) -> (r: u8)
        ensures
            r == self.chan4_envelope_reg(),
    {
        ((self.channel4_envelope_volume & 0x0f) << 4u8) | (if self.channel4_envelope_up { 0x08u8 } else { 0u8 }) | (self.channel4_envelope_sweeps & 0x07)
    }

    /// NR42: volume envelope of channel 4.
    pub fn write_chan4_envelope(&mut self, value: u8)
        ensures
            *final(self) == old(self).after_chan4_envelope(value),
    {
        self.channel4_envelope_volume = (value >> 4u8) & 0x0f;
        self.channel4_envelope_up = (value >> 3u8) & 1 != 0;
        self.channel4_envelope_sweeps = value & 0x07;
    }

    /// NR43: shift clock, counter step and dividing ratio of channel 4.
    pub fn read_chan4_polycounter(&self) -> (r: u8)
        ensures
            r == self.chan4_polycounter_reg(),
    {
        ((self.channel4_shift_freq & 0x0f) << 4u8) | (if self.channel4_counter_step { 0x08u8 } else { 0u8 }) | (self.channel4_div_ratio & 0x07)
    }

    /// NR43: shift clock, counter step and dividing ratio of channel 4.
    pub fn write_chan4_polycounter(&mut self, value: u8)
        ensures
            *final(self) == old(self).after_chan4_polycounter(value),
    {
        self.channel4_shift_freq = (value >> 4u8) & 0x0f;
        self.channel4_counter_step = (value >> 3u8) & 1 != 0;
        self.channel4_div_ratio = value & 0x07;
    }

    /// NR50: output enables and volumes.
    pub fn read_chan_control(&self) -> (r: u8)
        ensures
            r == self.chan_control_reg(),
    {
        (if self.so2_output_enable { 0x80u8 } else { 0u8 }) | ((self.so2_output_volume & 0x07) << 4u8) | (if self.so1_output_enable { 0x08u8 } else { 0u8 }) | (self.so1_output_volume & 0x07)
    }

    /// NR50: output enables and volumes.
    pub fn write_chan_control(&mut self, value: u8)
        ensures
            *final(self) == old(self).after_chan_control(value),
    {
        self.so2_output_enable = (value >> 7u8) & 1 != 0;
        self.so2_output_volume = (value >> 4u8) & 0x07;
        self.so1_output_enable = (value >> 3u8) & 1 != 0;
        self.so1_output_volume = value & 0x07;
    }

    /// NR13: low byte of channel 1's frequency; write-only.
    pub fn write_chan1_freq_lo(&mut self, value: u8)
        ensures
            *final(self) == old(self).after_chan1_freq_lo(value),
    {
        self.channel1_frequency = (self.channel1_frequency & 0x0700) | (value as u16);
    }

    /// NR14: only the length-enable bit reads back.
    pub fn read_chan1_freq_hi(&self) -> (r: u8)
        ensures
            r == self.chan1_freq_hi_reg(),
    {
        if self.channel1_counter_consecutive { 0x40 } else { 0 }
    }

    /// NR14: trigger (bit 7) turns the channel on; bit 6 is length enable; bits 2..0 are
    /// the high bits of the frequency.
    pub fn write_chan1_freq_hi(&mut self, value: u8)
        ensures
            *final(self) == old(self).after_chan1_freq_hi(value),
    {
        if value >> 7u8 != 0 {
            self.sound_1_on = true;
        }
        self.channel1_counter_consecutive = (value >> 6u8) & 1 != 0;
        self.channel1_frequency = (self.channel1_frequency & 0x00FF) | (((value & 0x07) as u16) << 8u16);
    }

    /// NR23: low byte of channel 2's frequency; write-only.
    pub fn write_chan2_freq_lo(&mut self, value: u8)
        ensures
            *final(self) == old(self).after_chan2_freq_lo(value),
    {
        self.channel2_frequency = (self.channel2_frequency & 0x0700) | (value as u16);
    }

    /// NR24: only the length-enable bit reads back.
    pub fn read_chan2_freq_hi(&self) -> (r: u8)
        ensures
            r == self.chan2_freq_hi_reg(),
    {
        if self.channel2_counter_consecutive { 0x40 } else { 0 }
    }

    /// NR24: trigger (bit 7) turns the channel on; bit 6 is length enable; bits 2..0 are
    /// the high bits of the frequency.
    pub fn write_chan2_freq_hi(&mut self, value: u8)
        ensures
            *final(self) == old(self).after_chan2_freq_hi(value),
    {
        if value >> 7u8 != 0 {
            self.sound_2_on = true;
        }
        self.channel2_counter_consecutive = (value >> 6u8) & 1 != 0;
        self.channel2_frequency = (self.channel2_frequency & 0x00FF) | (((value & 0x07) as u16) << 8u16);
    }

    /// NR33: low byte of channel 3's frequency; write-only.
    pub fn write_chan3_freq_lo(&mut self, value: u8)
        ensures
            *final(self) == old(self).after_chan3_freq_lo(value),
    {
        self.channel3_frequency = (self.channel3_frequency & 0x0700) | (value as u16);
    }

    /// NR34: only the length-enable bit reads back.
    pub fn read_chan3_freq_hi(&self) -> (r: u8)
        ensures
            r == self.chan3_freq_hi_reg(),
    {
        if self.channel3_counter_consecutive { 0x40 } else { 0 }
    }

    /// NR34: trigger (bit 7) turns the channel on; bit 6 is length enable; bits 2..0 are
    /// the high bits of the frequency.
    pub fn write_chan3_freq_hi(&mut self, value: u8)
        ensures
            *final(self) == old(self).after_chan3_freq_hi(value),
    {
        if value >> 7u8 != 0 {
            self.sound_3_on = true;
        }
        self.channel3_counter_consecutive = (value >> 6u8) & 1 != 0;
        self.channel3_frequency = (self.channel3_frequency & 0x00FF) | (((value & 0x07) as u16) << 8u16);
    }

    /// NR44: trigger and length enable of channel 4.
    pub fn read_chan4_counter_consec(&self) -> (r: u8)
        ensures
            r == self.chan4_counter_consec_reg(),
    {
        if self.channel4_counter_consecutive { 0x40 } else { 0 }
    }

    pub fn write_chan4_counter_consec(&mut self, value: u8)
        ensures
            *final(self) == old(self).after_chan4_counter_consec(value),
    {
        if value >> 7u8 != 0 {
            self.sound_4_on = true;
        }
        self.channel4_counter_consecutive = (value >> 6u8) & 1 != 0;
    }

    /// The 16 bytes of channel 3's wave table.
    pub open spec fn wave_ok(self) -> bool {
        self.wave_pattern_ram@.len() == 16
    }

    pub fn read_wave_pattern_ram(&self, offset: usize) -> (r: u8)
        requires
            self.wave_ok(),
            offset < 16,
        ensures
            r == self.wave_pattern_ram@[offset as int],
    {
        self.wave_pattern_ram[offset]
    }

    pub fn write_wave_pattern_ram(&mut self, offset: usize, value: u8)
        requires
            old(self).wave_ok(),
            offset < 16,
        ensures
            final(self).wave_pattern_ram@ == old(self).wave_pattern_ram@.update(offset as int, value),
            *final(self) == (Apu { wave_pattern_ram: final(self).wave_pattern_ram, ..*old(self) }),
    {
        self.wave_pattern_ram.set(offset, value);
    }

    /// NR52: master enable in bit 7, the four channel statuses in bits 3..0.
    pub fn read_sound_on_reg(&self) -> (r: u8)
        ensures
            r == self.sound_on_reg_reg(),
    {
        (if self.enable_sound_controller { 0x80u8 } else { 0u8 }) | (if self.sound_4_on { 0x08u8 } else { 0u8 })
            | (if self.sound_3_on { 0x04u8 } else { 0u8 }) | (if self.sound_2_on { 0x02u8 } else { 0u8 })
            | (if self.sound_1_on { 0x01u8 } else { 0u8 })
    }

    /// NR52: only the master enable can be written.
    pub fn write_sound_on_reg(&mut self, value: u8)
        ensures
            *final(self) == old(self).after_sound_on_reg(value),
    {
        self.enable_sound_controller = value & 0x80 != 0;
    }
}

} // verus!
