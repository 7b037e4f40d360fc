//! The resampling renderer: turns the backlog of source samples into output
//! frames at the device's rate, with linear interpolation, volume scaling and
//! fan-out of the mono source to every output channel.
use vstd::prelude::*;
use crate::playback::{PlaybackModel, PlaybackState};
use crate::sample::{
    div_trunc, equilibrium, lemma_div_trunc_bounds, native_value, scale_sample, scaled, SampleFormat,
    FIXED_ONE,
};
use vstd::arithmetic::div_mod::{lemma_div_multiples_vanish, lemma_fundamental_div_mod_converse};

verus! {

/// Rate of the source samples, in Hz.
pub const SOURCE_RATE: u32 = 44100;

/// Mathematical model of a renderer.
pub struct ResamplerModel {
    /// Device rate in Hz.
    pub device_rate: nat,
    /// Output channels per frame.
    pub channels: nat,
    /// Native sample representation of the device.
    pub format: SampleFormat,
    /// Fractional resample cursor, in units of `1 / device_rate` source samples.
    pub cursor: nat,
}

impl ResamplerModel {
    pub open spec fn wf(self) -> bool {
        &&& 0 < self.device_rate <= u32::MAX
        &&& 0 < self.channels <= u16::MAX
        &&& self.cursor < self.device_rate
    }
}

/// Linear interpolation between the first two backlog samples at the cursor
/// `cursor / rate`; the last sample is held when it has no successor, and an
/// exhausted backlog gives silence.
pub open spec fn interpolated(b: Seq<i32>, cursor: nat, rate: nat) -> int {
    if b.len() == 0 {
        0
    } else {
        let s0 = b[0] as int;
        let s1 = if b.len() > 1 { b[1] as int } else { s0 };
        div_trunc(s0 * (rate - cursor) + s1 * cursor, rate as int)
    }
}

/// Backlog and cursor after one frame: the cursor advances by
/// `SOURCE_RATE / rate` source samples, and the whole samples it passed are
/// removed from the front of the backlog.
pub open spec fn advanced(b: Seq<i32>, cursor: nat, rate: nat) -> (Seq<i32>, nat)
    recommends
        rate > 0,
{
    let next = (cursor + SOURCE_RATE) as nat;
    let consumed = next / rate;
    (b.skip(if consumed < b.len() { consumed as int } else { b.len() as int }), (next % rate) as nat)
}

/// Backlog and cursor after `k` frames of playback.
pub open spec fn drained(b: Seq<i32>, cursor: nat, rate: nat, k: nat) -> (Seq<i32>, nat)
    decreases k,
{
    if k == 0 {
        (b, cursor)
    } else {
        let prev = drained(b, cursor, rate, (k - 1) as nat);
        advanced(prev.0, prev.1, rate)
    }
}

/// The fixed-point output of frame `k` of a playing engine.
pub open spec fn rendered(b: Seq<i32>, cursor: nat, rate: nat, volume: int, k: nat) -> int {
    let st = drained(b, cursor, rate, k);
    scaled(interpolated(st.0, st.1, rate), volume)
}

/// Renderer state owned by the output callback: the negotiated device
/// configuration and the resample cursor, which persists across calls.
pub struct Resampler {
    device_rate: u32,
    channels: u16,
    format: SampleFormat,
    cursor: u32,
}

impl View for Resampler {
    type V = ResamplerModel;

    closed spec fn view(&self) -> ResamplerModel {
        ResamplerModel {
            device_rate: self.device_rate as nat,
            channels: self.channels as nat,
            format: self.format,
            cursor: self.cursor as nat,
        }
    }
}

impl Resampler {
    /// A renderer for a device of the given rate, channel count and format,
    /// with the cursor at zero.
    pub fn new(device_rate: u32, channels: u16, format: SampleFormat) -> (r: Resampler)
        requires
            device_rate > 0,
            channels > 0,
        ensures
            r@ == (ResamplerModel {
                device_rate: device_rate as nat,
                channels: channels as nat,
                format,
                cursor: 0,
            }),
            r@.wf(),
    {
        Resampler { device_rate, channels, format, cursor: 0 }
    }

    pub fn device_rate(&self) -> (r: u32)
        ensures
            r == self@.device_rate,
    {
        self.device_rate
    }

    pub fn channels(&self) -> (r: u16)
        ensures
            r == self@.channels,
    {
        self.channels
    }

    pub fn format(&self) -> (r: SampleFormat)
        ensures
            r == self@.format,
    {
        self.format
    }

    /// The fractional cursor, in units of `1 / device_rate` source samples.
    pub fn cursor(&self) -> (r: u32)
        ensures
            r == self@.cursor,
    {
        self.cursor
    }

    fn interpolate(&self, state: &PlaybackState) -> (r: i32)
        requires
            self@.wf(),
        ensures
            r == interpolated(state@.backlog, self@.cursor, self@.device_rate),
    {
        match state.sample_at(0) {
            None => 0,
            Some(s0) => {
                let s1 = match state.sample_at(1) {
                    Some(s) => s,
                    None => s0,
                };
                let rate = self.device_rate as i128;
                let c = self.cursor as i128;
                proof {
                    let lo = i32::MIN as int;
                    let hi = i32::MAX as int;
                    let r = rate as int;
                    let ci = c as int;
                    assert(lo * (r - ci) <= s0 * (r - ci) <= hi * (r - ci)) by (nonlinear_arith)
                        requires lo <= s0 <= hi, 0 <= ci < r;
                    assert(lo * ci <= s1 * ci <= hi * ci) by (nonlinear_arith)
                        requires lo <= s1 <= hi, 0 <= ci;
                    assert(lo * (r - ci) + lo * ci == lo * r) by (nonlinear_arith);
                    assert(hi * (r - ci) + hi * ci == hi * r) by (nonlinear_arith);
                    assert(-0x1_0000_0000_0000_0000 <= lo * r && hi * r <= 0x1_0000_0000_0000_0000) by (nonlinear_arith)
                        requires 0 < r <= 0xffff_ffff, lo == -0x8000_0000, hi == 0x7fff_ffff;
                    assert(lo * r <= lo * (r - ci)) by (nonlinear_arith)
                        requires lo < 0, 0 <= ci < r;
                    assert(hi * (r - ci) <= hi * r) by (nonlinear_arith)
                        requires hi > 0, 0 <= ci < r;
                    assert(lo * r <= lo * ci) by (nonlinear_arith)
                        requires lo < 0, 0 <= ci < r;
                    assert(hi * ci <= hi * r) by (nonlinear_arith)
                        requires hi > 0, 0 <= ci < r;
                    lemma_div_trunc_bounds(s0 * (r - ci) + s1 * ci, r, lo, hi);
                }
                let a = (s0 as i128) * (rate - c);
                let b = (s1 as i128) * c;
                let n = a + b;
                let q: i128 = if n >= 0 {
                    n / rate
                } else {
                    -((-n) / rate)
                };
                q as i32
            },
        }
    }

    /// Renders `frames` mono frames: one fixed-point value per frame.
    pub fn render_mono(&mut self, state: &mut PlaybackState, frames: usize) -> (out: Vec<i32>)
        requires
            old(self)@.wf(),
            old(state)@.wf(),
        ensures
            final(self)@.wf(),
            final(state)@.wf(),
            out@.len() == frames,
            final(self)@.device_rate == old(self)@.device_rate,
            final(self)@.channels == old(self)@.channels,
            final(self)@.format == old(self)@.format,
            final(state)@.volume == old(state)@.volume,
            final(state)@.playing == old(state)@.playing,
            !old(state)@.playing ==> {
                &&& forall|k: int| 0 <= k < frames ==> out@[k] == 0
                &&& final(state)@ == old(state)@
                &&& final(self)@ == old(self)@
            },
            old(state)@.playing ==> {
                &&& forall|k: int|
                    0 <= k < frames ==> out@[k] == rendered(
                        old(state)@.backlog,
                        old(self)@.cursor,
                        old(self)@.device_rate,
                        old(state)@.volume,
                        k as nat,
                    )
                &&& (final(state)@.backlog, final(self)@.cursor) == drained(
                    old(state)@.backlog,
                    old(self)@.cursor,
                    old(self)@.device_rate,
                    frames as nat,
                )
            },
    {
        let mut out: Vec<i32> = Vec::new();
        if !state.is_playing() {
            let mut k: usize = 0;
            while k < frames
                invariant
                    k <= frames,
                    out@.len() == k,
                    forall|j: int| 0 <= j < k ==> out@[j] == 0,
                decreases frames - k,
            {
                out.push(0);
                k = k + 1;
            }
            return out;
        }
        let volume = state.volume();
        let mut k: usize = 0;
        while k < frames
            invariant
                k <= frames,
                out@.len() == k,
                self@.wf(),
                state@.wf(),
                state@.playing,
                self@.device_rate == old(self)@.device_rate,
                self@.channels == old(self)@.channels,
                self@.format == old(self)@.format,
                state@.volume == old(state)@.volume,
                volume == state@.volume,
                old(state)@.playing,
                (state@.backlog, self@.cursor) == drained(
                    old(state)@.backlog,
                    old(self)@.cursor,
                    old(self)@.device_rate,
                    k as nat,
                ),
                forall|j: int|
                    0 <= j < k ==> out@[j] == rendered(
                        old(state)@.backlog,
                        old(self)@.cursor,
                        old(self)@.device_rate,
                        old(state)@.volume,
                        j as nat,
                    ),
            decreases frames - k,
        {
            let v = self.interpolate(state);
            let sample = scale_sample(v, volume);
            out.push(sample);
            let next: u64 = self.cursor as u64 + SOURCE_RATE as u64;
            let consumed: u64 = next / (self.device_rate as u64);
            self.cursor = (next % (self.device_rate as u64)) as u32;
            state.discard_front(consumed);
            k = k + 1;
        }
        out
    }

    /// Renders `frames` interleaved output frames: each frame holds the same
    /// fixed-point value in every channel.
    pub fn render(&mut self, state: &mut PlaybackState, frames: usize) -> (out: Vec<i32>)
        requires
            old(self)@.wf(),
            old(state)@.wf(),
            frames * old(self)@.channels <= usize::MAX,
        ensures
            final(self)@.wf(),
            final(state)@.wf(),
            out@.len() == frames * old(self)@.channels,
            final(self)@.device_rate == old(self)@.device_rate,
            final(self)@.channels == old(self)@.channels,
            final(self)@.format == old(self)@.format,
            final(state)@.volume == old(state)@.volume,
            final(state)@.playing == old(state)@.playing,
            forall|k: int, c: int|
                0 <= k < frames && 0 <= c < old(self)@.channels ==> out@[#[trigger] slot(k, old(self)@.channels as int, c)]
                    == frame_value(old(state)@, old(self)@, k as nat),
            !old(state)@.playing ==> final(state)@ == old(state)@ && final(self)@ == old(self)@,
            old(state)@.playing ==> (final(state)@.backlog, final(self)@.cursor) == drained(
                old(state)@.backlog,
                old(self)@.cursor,
                old(self)@.device_rate,
                frames as nat,
            ),
    {
        let channels = self.channels;
        let mono = self.render_mono(state, frames);
        fan_out(&mono, channels)
    }
}

/// The fixed-point value of output frame `k` of a render that starts from
/// the given state and renderer: silence when stopped.
pub open spec fn frame_value(s: PlaybackModel, r: ResamplerModel, k: nat) -> int {
    if s.playing {
        rendered(s.backlog, r.cursor, r.device_rate, s.volume, k)
    } else {
        0
    }
}

/// Position of channel `c` of frame `k` in an interleaved buffer.
pub open spec fn slot(k: int, channels: int, c: int) -> int {
    k * channels + c
}

/// Duplicates each mono value into `channels` consecutive slots.
pub fn fan_out(mono: &Vec<i32>, channels: u16) -> (out: Vec<i32>)
    requires
        mono@.len() * channels <= usize::MAX,
    ensures
        out@.len() == mono@.len() * channels,
        forall|k: int, c: int|
            0 <= k < mono@.len() && 0 <= c < channels ==> out@[#[trigger] slot(k, channels as int, c)] == mono@[k],
{
    let ch = channels as usize;
    let mut out: Vec<i32> = Vec::new();
    let mut k: usize = 0;
    while k < mono.len()
        invariant
            k <= mono@.len(),
            ch == channels,
            mono@.len() * ch <= usize::MAX,
            out@.len() == k * ch,
            forall|j: int, c: int| 0 <= j < k && 0 <= c < ch ==> out@[#[trigger] slot(j, ch as int, c)] == mono@[j],
        decreases mono@.len() - k,
    {
        let mut c: usize = 0;
        while c < ch
            invariant
                k < mono@.len(),
                c <= ch,
                ch == channels,
                mono@.len() * ch <= usize::MAX,
                out@.len() == k * ch + c,
                forall|j: int, d: int| 0 <= j < k && 0 <= d < ch ==> out@[#[trigger] slot(j, ch as int, d)] == mono@[j],
                forall|d: int| 0 <= d < c ==> out@[#[trigger] slot(k as int, ch as int, d)] == mono@[k as int],
            decreases ch - c,
        {
            proof {
                assert(k * ch + c < mono@.len() * ch) by (nonlinear_arith)
                    requires k < mono@.len(), c < ch;
            }
            out.push(mono[k]);
            proof {
                assert forall|j: int, d: int| 0 <= j < k && 0 <= d < ch implies out@[#[trigger] slot(j, ch as int, d)] == mono@[j] by {
                    assert(j * ch + d < k * ch) by (nonlinear_arith)
                        requires j < k, d < ch, 0 <= d;
                }
            }
            c = c + 1;
        }
        proof {
            assert((k + 1) * ch == k * ch + ch) by (nonlinear_arith);
        }
        k = k + 1;
    }
    out
}

/// Truncating division of an exact multiple gives the factor back.
proof fn lemma_div_trunc_exact(x: int, d: int)
    requires
        d > 0,
    ensures
        div_trunc(x * d, d) == x,
{
    if x >= 0 {
        assert(x * d == d * x) by (nonlinear_arith);
        lemma_div_multiples_vanish(x, d);
    } else {
        assert(-(x * d) == d * (-x)) by (nonlinear_arith);
        lemma_div_multiples_vanish(-x, d);
    }
}

/// While the engine is stopped every rendered frame is the equilibrium value
/// of the device's format, whichever of the three formats it is.
pub proof fn lemma_stopped_frames_are_equilibrium(s: PlaybackModel, r: ResamplerModel, k: nat)
    requires
        !s.playing,
    ensures
        frame_value(s, r, k) == 0,
        native_value(r.format, frame_value(s, r, k)) == equilibrium(r.format),
{
}

/// When the device rate divides the source rate, so that each frame advances
/// by a whole number `m` of source samples, frame `k` is exactly source sample
/// `m * k`, with no fractional drift, and silence once the backlog is exhausted.
pub proof fn lemma_integer_ratio(b: Seq<i32>, rate: nat, m: nat, volume: int, k: nat)
    requires
        rate > 0,
        rate * m == SOURCE_RATE,
    ensures
        drained(b, 0, rate, k) == (b.skip(if m * k < b.len() { (m * k) as int } else { b.len() as int }), 0nat),
        rendered(b, 0, rate, volume, k) == (if m * k < b.len() { scaled(b[(m * k) as int] as int, volume) } else { scaled(0, volume) }),
    decreases k,
{
    let len = b.len() as int;
    if k == 0 {
        assert(b.skip(0) == b);
    } else {
        lemma_integer_ratio(b, rate, m, volume, (k - 1) as nat);
        let p = m * (k - 1);
        let x = if p < len { p as int } else { len };
        let prev = b.skip(x);
        assert(SOURCE_RATE as int == m * rate + 0) by (nonlinear_arith)
            requires rate * m == SOURCE_RATE;
        lemma_fundamental_div_mod_converse(SOURCE_RATE as int, rate as int, m as int, 0);
        assert(drained(b, 0, rate, k) == advanced(prev, 0, rate));
        assert(m * k == p + m) by (nonlinear_arith)
            requires p == m * (k - 1), k > 0;
        let y = if m < prev.len() { m as int } else { prev.len() as int };
        let z = if m * k < len { (m * k) as int } else { len };
        assert(x + y == z);
        assert(prev.skip(y) == b.skip(z));
        assert(advanced(prev, 0, rate) == (prev.skip(y), 0nat));
    }
    let st = drained(b, 0, rate, k);
    if st.0.len() > 0 {
        let s0 = st.0[0] as int;
        assert(s0 * (rate - 0) + (if st.0.len() > 1 { st.0[1] as int } else { s0 }) * 0 == s0 * rate) by (nonlinear_arith);
        lemma_div_trunc_exact(s0, rate as int);
    }
}

/// With equal source and device rates, the rendered frames at full volume are
/// the backlog samples themselves, one to one and in order.
pub proof fn lemma_equal_rates_copy_backlog(b: Seq<i32>, k: nat)
    requires
        k < b.len(),
    ensures
        rendered(b, 0, SOURCE_RATE as nat, FIXED_ONE as int, k) == b[k as int],
{
    lemma_integer_ratio(b, SOURCE_RATE as nat, 1, FIXED_ONE as int, k);
    lemma_div_trunc_exact(b[k as int] as int, FIXED_ONE as int);
}

/// Backlog and cursor stay a suffix of the original backlog and a valid
/// cursor, frame after frame.
proof fn lemma_drained_suffix(b: Seq<i32>, cursor: nat, rate: nat, k: nat)
    requires
        rate > 0,
        cursor < rate,
    ensures
        drained(b, cursor, rate, k).1 < rate,
        exists|j: int| 0 <= j <= b.len() && drained(b, cursor, rate, k).0 == b.skip(j),
    decreases k,
{
    if k == 0 {
        assert(b.skip(0) == b);
    } else {
        lemma_drained_suffix(b, cursor, rate, (k - 1) as nat);
        let prev = drained(b, cursor, rate, (k - 1) as nat);
        let j = choose|j: int| 0 <= j <= b.len() && prev.0 == b.skip(j);
        let next = (prev.1 + SOURCE_RATE) as nat;
        let consumed = next / rate;
        let y = if consumed < prev.0.len() { consumed as int } else { prev.0.len() as int };
        assert(prev.0.skip(y) == b.skip(j + y));
    }
}

/// A backlog of one constant value renders that value scaled by the volume,
/// at every cursor and rate, for as long as any of it is left: interpolation
/// between equal samples loses nothing.
pub proof fn lemma_constant_backlog(b: Seq<i32>, x: i32, cursor: nat, rate: nat, volume: int, k: nat)
    requires
        rate > 0,
        cursor < rate,
        forall|i: int| 0 <= i < b.len() ==> b[i] == x,
        drained(b, cursor, rate, k).0.len() > 0,
    ensures
        rendered(b, cursor, rate, volume, k) == scaled(x as int, volume),
{
    lemma_drained_suffix(b, cursor, rate, k);
    let st = drained(b, cursor, rate, k);
    let j = choose|j: int| 0 <= j <= b.len() && st.0 == b.skip(j);
    assert(st.0[0] == b[j]);
    if st.0.len() > 1 {
        assert(st.0[1] == b[j + 1]);
    }
    let c = st.1 as int;
    let r = rate as int;
    let xi = x as int;
    assert(xi * (r - c) + xi * c == xi * r) by (nonlinear_arith);
    lemma_div_trunc_exact(xi, r);
}

/// An exhausted backlog renders silence at any cursor, rate and volume.
pub proof fn lemma_underrun_is_silent(cursor: nat, rate: nat, volume: int)
    ensures
        interpolated(Seq::empty(), cursor, rate) == 0,
        scaled(interpolated(Seq::empty(), cursor, rate), volume) == 0,
{
}

} // verus!
