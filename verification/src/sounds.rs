//! The sound clips of the game and the rule that starts them.
//!
//! The board starts a clip when a bit of a sound port goes from 0 to 1.
//! This module decides which clips a port write starts; playing them is left
//! to the host.
use crate::bits::{bit_set, test_bit};
use crate::interpreter::PortEvent;
use crate::intel8080_state::{Machine, StateIntel8080};
use vstd::prelude::*;

verus! {

/// Number of sound clips.
pub const SOUND_COUNT: usize = 10;

/// Bank of the clips that port 3 starts.
pub const BANK_PORT_3: u8 = 1;

/// Bank of the clips that port 5 starts.
pub const BANK_PORT_5: u8 = 2;

/// The files of the sound clips, by clip number.
pub open spec fn sound_files() -> Seq<Seq<char>> {
    seq![
        "sounds/res_snd_0.wav"@,
        "sounds/res_snd_1.wav"@,
        "sounds/res_snd_2.wav"@,
        "sounds/res_snd_3.wav"@,
        "sounds/res_snd_4.wav"@,
        "sounds/res_snd_5.wav"@,
        "sounds/res_snd_6.wav"@,
        "sounds/res_snd_7.wav"@,
        "sounds/res_snd_8.wav"@,
        "sounds/res_snd_9.wav"@,
    ]
}

/// The contents of a list of file names.
pub open spec fn names(files: Seq<String>) -> Seq<Seq<char>> {
    Seq::new(files.len(), |i: int| files[i]@)
}

/// Whether bit `b` goes from 0 in `before` to 1 in `now`.
pub open spec fn rises(now: u8, before: u8, b: nat) -> bool {
    bit_set(now, b) && !bit_set(before, b)
}

/// Number of clips in a bank: four in the bank of port 3, five in the bank
/// of port 5, none in any other.
pub open spec fn bank_size(bank: u8) -> nat {
    if bank == BANK_PORT_3 {
        4
    } else if bank == BANK_PORT_5 {
        5
    } else {
        0
    }
}

/// Number of the first clip of a bank.
pub open spec fn bank_base(bank: u8) -> nat {
    if bank == BANK_PORT_5 {
        4
    } else {
        0
    }
}

/// The clips that the low `n` bits start, in ascending order: clip
/// `base + b` for each bit `b` below `n` that rises.
pub open spec fn rising_clips(now: u8, before: u8, base: nat, n: nat) -> Seq<usize>
    decreases n,
{
    if n == 0 {
        Seq::empty()
    } else {
        let rest = rising_clips(now, before, base, (n - 1) as nat);
        if rises(now, before, (n - 1) as nat) {
            rest.push((base + n - 1) as usize)
        } else {
            rest
        }
    }
}

/// The clips that a write of `now` to the port of `bank` starts when the
/// port held `before`.
pub open spec fn cued_clips(now: u8, bank: u8, before: u8) -> Seq<usize> {
    rising_clips(now, before, bank_base(bank), bank_size(bank))
}

/// Whether a write is an event of a known bank that changes the port.
pub open spec fn handled(now: u8, bank: u8, before: u8) -> bool {
    (bank == BANK_PORT_3 || bank == BANK_PORT_5) && now != before
}

/// Every cued clip is the clip of a rising bit of its bank, and a valid clip
/// number.
pub proof fn lemma_cued_clips(now: u8, before: u8, base: nat, n: nat)
    requires
        base + n <= SOUND_COUNT,
    ensures
        rising_clips(now, before, base, n).len() <= n,
        forall|k: int|
            0 <= k < rising_clips(now, before, base, n).len() ==> {
                let clip = #[trigger] rising_clips(now, before, base, n)[k];
                &&& base <= clip < base + n
                &&& rises(now, before, (clip - base) as nat)
            },
    decreases n,
{
    if n > 0 {
        lemma_cued_clips(now, before, base, (n - 1) as nat);
    }
}

/// A write that leaves the port as it was starts no clip.
pub proof fn lemma_unchanged_port_is_silent(now: u8, base: nat, n: nat)
    ensures
        rising_clips(now, now, base, n) == Seq::<usize>::empty(),
    decreases n,
{
    if n > 0 {
        lemma_unchanged_port_is_silent(now, base, (n - 1) as nat);
    }
}

/// The state after the audio side handled a sound-port write: the value is
/// remembered as the last one handled on its port.
pub open spec fn acknowledged(m: Machine, event: PortEvent) -> Machine {
    if event.port == 3 {
        Machine { last_output_3: event.value, ..m }
    } else if event.port == 5 {
        Machine { last_output_5: event.value, ..m }
    } else {
        m
    }
}

/// The bank of the clips that a port starts; zero for a port without
/// sound.
pub open spec fn bank_of(port: u8) -> u8 {
    if port == 3 {
        BANK_PORT_3
    } else if port == 5 {
        BANK_PORT_5
    } else {
        0
    }
}

/// The value that the audio side handled last on a port.
pub open spec fn last_handled(m: Machine, port: u8) -> u8 {
    if port == 3 {
        m.last_output_3
    } else if port == 5 {
        m.last_output_5
    } else {
        0
    }
}

/// The sound clips of the game, as the paths of their files.
#[derive(Debug, Clone)]
pub struct Invaderwavs {
    pub sounds: Vec<String>,
}

impl View for Invaderwavs {
    type V = Seq<Seq<char>>;

    /// The file names, by clip number.
    open spec fn view(&self) -> Seq<Seq<char>> {
        names(self.sounds@)
    }
}

impl Default for Invaderwavs {
    /// No clip loaded.
    fn default() -> (wavs: Invaderwavs)
        ensures
            wavs@ == Seq::<Seq<char>>::empty(),
            wavs.sounds@.len() == 0,
    {
        Invaderwavs { sounds: Vec::new() }
    }
}

impl Invaderwavs {
    /// Appends the paths of the ten clips, in clip order.
    pub fn load_sounds(&mut self)
        ensures
            final(self)@ == old(self)@ + sound_files(),
    {
        self.sounds.push("sounds/res_snd_0.wav".to_owned());
        self.sounds.push("sounds/res_snd_1.wav".to_owned());
        self.sounds.push("sounds/res_snd_2.wav".to_owned());
        self.sounds.push("sounds/res_snd_3.wav".to_owned());
        self.sounds.push("sounds/res_snd_4.wav".to_owned());
        self.sounds.push("sounds/res_snd_5.wav".to_owned());
        self.sounds.push("sounds/res_snd_6.wav".to_owned());
        self.sounds.push("sounds/res_snd_7.wav".to_owned());
        self.sounds.push("sounds/res_snd_8.wav".to_owned());
        self.sounds.push("sounds/res_snd_9.wav".to_owned());
        assert(names(self.sounds@) =~= names(old(self).sounds@) + sound_files());
    }

    /// Whether bit `b` of `n` is set.
    pub fn get_sound_bit(&self, n: u8, b: usize) -> (set: bool)
        requires
            b < 8,
        ensures
            set == bit_set(n, b as nat),
    {
        test_bit(n, b)
    }

    /// Decides which clips a write of `reg_a` to a sound port starts.
    /// `event_type` is the bank of the port and `output_state` the value it
    /// held before. Returns whether the write was handled, that is whether
    /// the bank is known and the value changed, and the clips to start, in
    /// ascending order: one for each bit of the bank that rises.
    pub fn queued_event(&self, reg_a: u8, event_type: u8, output_state: u8) -> (queued: (
        bool,
        Vec<usize>,
    ))
        ensures
            queued.0 == handled(reg_a, event_type, output_state),
            queued.1@ == cued_clips(reg_a, event_type, output_state),
            forall|k: int| 0 <= k < queued.1@.len() ==> queued.1@[k] < SOUND_COUNT,
    {
        let mut clips: Vec<usize> = Vec::new();
        let (base, count): (usize, usize) = if event_type == BANK_PORT_3 {
            (0, 4)
        } else if event_type == BANK_PORT_5 {
            (4, 5)
        } else {
            (0, 0)
        };
        let mut b: usize = 0;
        while b < count
            invariant
                b <= count <= 5,
                base + count <= SOUND_COUNT,
                base == bank_base(event_type),
                count == bank_size(event_type),
                clips@ == rising_clips(reg_a, output_state, base as nat, b as nat),
            decreases count - b,
        {
            if self.get_sound_bit(reg_a, b) && !self.get_sound_bit(output_state, b) {
                clips.push(base + b);
            }
            b += 1;
        }
        proof {
            lemma_cued_clips(reg_a, output_state, base as nat, count as nat);
        }
        let known = event_type == BANK_PORT_3 || event_type == BANK_PORT_5;
        (known && reg_a != output_state, clips)
    }

    /// Handles a sound-port write of the processor: decides the clips it
    /// starts against the value handled last on that port, and remembers the
    /// new value as handled.
    pub fn cue_sounds(&self, state: &mut StateIntel8080, event: PortEvent) -> (clips: Vec<usize>)
        ensures
            clips@ == cued_clips(
                event.value,
                bank_of(event.port),
                last_handled(old(state)@, event.port),
            ),
            forall|k: int| 0 <= k < clips@.len() ==> clips@[k] < SOUND_COUNT,
            final(state)@ == acknowledged(old(state)@, event),
    {
        if event.port == 3 {
            let (_, clips) = self.queued_event(event.value, BANK_PORT_3, state.last_output_3);
            state.last_output_3 = event.value;
            clips
        } else if event.port == 5 {
            let (_, clips) = self.queued_event(event.value, BANK_PORT_5, state.last_output_5);
            state.last_output_5 = event.value;
            clips
        } else {
            Vec::new()
        }
    }
}

} // verus!
