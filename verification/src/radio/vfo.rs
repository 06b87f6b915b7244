//! VFO (Variable Frequency Oscillator) Management
//!
//! Dual VFOs (A/B) for split operation, and a bank of memory channels.

use vstd::prelude::*;
use crate::types::{Band, Frequency, Mode, band_of_hz, auto_mode};
use super::state::VfoSelect;

verus! {

/// VFO settings (stored per VFO)
#[derive(Clone, Copy, Debug)]
pub struct VfoSettings {
    /// VFO frequency
    pub frequency: Frequency,
    /// Operating mode
    pub mode: Mode,
}

impl VfoSettings {
    /// Create new VFO settings
    pub fn new(frequency: Frequency, mode: Mode) -> (r: Self)
        ensures
            r == (VfoSettings { frequency, mode }),
    {
        Self { frequency, mode }
    }

    /// Create with auto-detected mode from band
    pub fn with_auto_mode(frequency: Frequency) -> (r: Self)
        ensures
            r.frequency == frequency,
            r.mode == auto_mode(band_of_hz(frequency@)),
    {
        let mode = match Band::from_frequency(frequency) {
            Some(b) => b.default_mode(),
            None => Mode::Usb,
        };
        Self { frequency, mode }
    }
}

impl Default for VfoSettings {
    fn default() -> (r: Self)
        ensures
            r.frequency@ == 7_074_000,
            r.mode == Mode::Lsb,
    {
        Self::with_auto_mode(Frequency::from_hz_const(7_074_000))
    }
}

/// Mathematical model of the dual VFO manager.
pub struct VfoManagerModel {
    pub vfo_a: VfoSettings,
    pub vfo_b: VfoSettings,
    pub selected: VfoSelect,
    pub split: bool,
}

/// The VFO that `sel` designates in `m`.
pub open spec fn vfo_of(m: VfoManagerModel, sel: VfoSelect) -> VfoSettings {
    match sel {
        VfoSelect::A => m.vfo_a,
        VfoSelect::B => m.vfo_b,
    }
}

/// `m` with the VFO designated by `sel` replaced by `v`.
pub open spec fn with_vfo(m: VfoManagerModel, sel: VfoSelect, v: VfoSettings) -> VfoManagerModel {
    match sel {
        VfoSelect::A => VfoManagerModel { vfo_a: v, ..m },
        VfoSelect::B => VfoManagerModel { vfo_b: v, ..m },
    }
}

/// The VFO used for transmitting: the other one in split mode.
pub open spec fn tx_vfo_of(m: VfoManagerModel) -> VfoSettings {
    if m.split {
        vfo_of(m, m.selected.toggle())
    } else {
        vfo_of(m, m.selected)
    }
}

/// Dual VFO manager
#[derive(Clone, Debug)]
pub struct VfoManager {
    /// VFO A settings
    vfo_a: VfoSettings,
    /// VFO B settings
    vfo_b: VfoSettings,
    /// Currently selected VFO
    selected: VfoSelect,
    /// Split mode enabled
    split: bool,
}

impl View for VfoManager {
    type V = VfoManagerModel;

    closed spec fn view(&self) -> VfoManagerModel {
        VfoManagerModel {
            vfo_a: self.vfo_a,
            vfo_b: self.vfo_b,
            selected: self.selected,
            split: self.split,
        }
    }
}

impl VfoManager {
    /// Create a new VFO manager with default settings
    pub fn new() -> (r: Self)
        ensures
            r@.vfo_a.frequency@ == 7_074_000,
            r@.vfo_a.mode == Mode::Lsb,
            r@.vfo_b.frequency@ == 7_100_000,
            r@.vfo_b.mode == Mode::Lsb,
            r@.selected == VfoSelect::A,
            !r@.split,
    {
        Self {
            vfo_a: VfoSettings::with_auto_mode(Frequency::from_hz_const(7_074_000)),
            vfo_b: VfoSettings::with_auto_mode(Frequency::from_hz_const(7_100_000)),
            selected: VfoSelect::A,
            split: false,
        }
    }

    /// Get currently selected VFO
    pub fn selected(&self) -> (r: VfoSelect)
        ensures
            r == self@.selected,
    {
        self.selected
    }

    /// Get current VFO settings
    pub fn current(&self) -> (r: &VfoSettings)
        ensures
            *r == vfo_of(self@, self@.selected),
    {
        match self.selected {
            VfoSelect::A => &self.vfo_a,
            VfoSelect::B => &self.vfo_b,
        }
    }

    /// Get current VFO settings mutably
    fn current_mut(&mut self) -> (r: &mut VfoSettings)
        ensures
            *r == vfo_of(old(self)@, old(self)@.selected),
            final(self)@ == with_vfo(old(self)@, old(self)@.selected, *final(r)),
    {
        match self.selected {
            VfoSelect::A => &mut self.vfo_a,
            VfoSelect::B => &mut self.vfo_b,
        }
    }

    /// Get VFO A settings
    pub fn vfo_a(&self) -> (r: &VfoSettings)
        ensures
            *r == self@.vfo_a,
    {
        &self.vfo_a
    }

    /// Get VFO B settings
    pub fn vfo_b(&self) -> (r: &VfoSettings)
        ensures
            *r == self@.vfo_b,
    {
        &self.vfo_b
    }

    /// Get receive VFO (always selected VFO)
    pub fn rx_vfo(&self) -> (r: &VfoSettings)
        ensures
            *r == vfo_of(self@, self@.selected),
    {
        self.current()
    }

    /// Get transmit VFO (other VFO if split enabled)
    pub fn tx_vfo(&self) -> (r: &VfoSettings)
        ensures
            *r == tx_vfo_of(self@),
    {
        if self.split {
            match self.selected {
                VfoSelect::A => &self.vfo_b,
                VfoSelect::B => &self.vfo_a,
            }
        } else {
            self.current()
        }
    }

    /// Check if split mode is enabled
    pub fn split(&self) -> (r: bool)
        ensures
            r == self@.split,
    {
        self.split
    }

    /// Switch to VFO A
    pub fn select_a(&mut self)
        ensures
            final(self)@ == (VfoManagerModel { selected: VfoSelect::A, ..old(self)@ }),
    {
        self.selected = VfoSelect::A;
    }

    /// Switch to VFO B
    pub fn select_b(&mut self)
        ensures
            final(self)@ == (VfoManagerModel { selected: VfoSelect::B, ..old(self)@ }),
    {
        self.selected = VfoSelect::B;
    }

    /// Toggle VFO selection
    pub fn toggle(&mut self)
        ensures
            final(self)@ == (VfoManagerModel { selected: old(self)@.selected.toggle(), ..old(self)@ }),
    {
        self.selected = self.selected.toggle();
    }

    /// Swap VFO A and B
    pub fn swap(&mut self)
        ensures
            final(self)@ == (VfoManagerModel {
                vfo_a: old(self)@.vfo_b,
                vfo_b: old(self)@.vfo_a,
                ..old(self)@
            }),
    {
        let a = self.vfo_a;
        self.vfo_a = self.vfo_b;
        self.vfo_b = a;
    }

    /// Copy current VFO to other
    pub fn copy_to_other(&mut self)
        ensures
            final(self)@ == with_vfo(
                old(self)@,
                old(self)@.selected.toggle(),
                vfo_of(old(self)@, old(self)@.selected),
            ),
    {
        match self.selected {
            VfoSelect::A => self.vfo_b = self.vfo_a,
            VfoSelect::B => self.vfo_a = self.vfo_b,
        }
    }

    /// Copy VFO A to VFO B
    pub fn copy_a_to_b(&mut self)
        ensures
            final(self)@ == (VfoManagerModel { vfo_b: old(self)@.vfo_a, ..old(self)@ }),
    {
        self.vfo_b = self.vfo_a;
    }

    /// Copy VFO B to VFO A
    pub fn copy_b_to_a(&mut self)
        ensures
            final(self)@ == (VfoManagerModel { vfo_a: old(self)@.vfo_b, ..old(self)@ }),
    {
        self.vfo_a = self.vfo_b;
    }

    /// Set frequency on current VFO
    pub fn set_frequency(&mut self, frequency: Frequency)
        ensures
            final(self)@ == with_vfo(
                old(self)@,
                old(self)@.selected,
                VfoSettings { frequency, ..vfo_of(old(self)@, old(self)@.selected) },
            ),
    {
        let cur = self.current_mut();
        cur.frequency = frequency;
    }

    /// Set mode on current VFO
    pub fn set_mode(&mut self, mode: Mode)
        ensures
            final(self)@ == with_vfo(
                old(self)@,
                old(self)@.selected,
                VfoSettings { mode, ..vfo_of(old(self)@, old(self)@.selected) },
            ),
    {
        let cur = self.current_mut();
        cur.mode = mode;
    }

    /// Enable split mode
    pub fn enable_split(&mut self)
        ensures
            final(self)@ == (VfoManagerModel { split: true, ..old(self)@ }),
    {
        self.split = true;
    }

    /// Disable split mode
    pub fn disable_split(&mut self)
        ensures
            final(self)@ == (VfoManagerModel { split: false, ..old(self)@ }),
    {
        self.split = false;
    }

    /// Toggle split mode
    pub fn toggle_split(&mut self)
        ensures
            final(self)@ == (VfoManagerModel { split: !old(self)@.split, ..old(self)@ }),
    {
        self.split = !self.split;
    }
}

impl Default for VfoManager {
    fn default() -> (r: Self)
        ensures
            r@.vfo_a.frequency@ == 7_074_000,
            r@.vfo_b.frequency@ == 7_100_000,
            r@.selected == VfoSelect::A,
            !r@.split,
    {
        Self::new()
    }
}

/// Memory channel storage
#[derive(Clone, Copy, Debug)]
pub struct MemoryChannel {
    /// Channel number
    pub number: u8,
    /// Stored frequency
    pub frequency: Frequency,
    /// Stored mode
    pub mode: Mode,
    /// Channel name (8 chars max)
    pub name: [u8; 8],
    /// Channel is in use
    pub active: bool,
}

/// The settings a channel gives back: its frequency and mode when it is in
/// use, nothing otherwise.
pub open spec fn recall_of(ch: MemoryChannel) -> Option<VfoSettings> {
    if ch.active {
        Some(VfoSettings { frequency: ch.frequency, mode: ch.mode })
    } else {
        None
    }
}

/// The eight name bytes stored for `name`: its first eight bytes, padded
/// with zeros.
pub open spec fn stored_name(name: Seq<u8>) -> Seq<u8> {
    Seq::new(8, |i: int| if i < name.len() { name[i] } else { 0u8 })
}

impl MemoryChannel {
    /// Create an empty memory channel
    pub fn empty(number: u8) -> (r: Self)
        ensures
            r.number == number,
            r.frequency@ == 7_000_000,
            r.mode == Mode::Lsb,
            r.name@ == Seq::new(8, |i: int| 0u8),
            !r.active,
    {
        let r = Self {
            number,
            frequency: Frequency::from_hz_const(7_000_000),
            mode: Mode::Lsb,
            name: [0; 8],
            active: false,
        };
        assert(r.name@ =~= Seq::new(8, |i: int| 0u8));
        r
    }

    /// Store VFO settings to channel
    pub fn store(&mut self, settings: &VfoSettings)
        ensures
            *final(self) == (MemoryChannel {
                frequency: settings.frequency,
                mode: settings.mode,
                active: true,
                ..*old(self)
            }),
    {
        self.frequency = settings.frequency;
        self.mode = settings.mode;
        self.active = true;
    }

    /// Recall channel to VFO settings
    pub fn recall(&self) -> (r: Option<VfoSettings>)
        ensures
            r == recall_of(*self),
    {
        if self.active {
            Some(VfoSettings { frequency: self.frequency, mode: self.mode })
        } else {
            None
        }
    }

    /// Clear the channel
    pub fn clear(&mut self)
        ensures
            final(self).number == old(self).number,
            final(self).frequency == old(self).frequency,
            final(self).mode == old(self).mode,
            final(self).name@ == Seq::new(8, |i: int| 0u8),
            !final(self).active,
    {
        self.active = false;
        self.name = [0; 8];
        assert(self.name@ =~= Seq::new(8, |i: int| 0u8));
    }

    /// Set channel name
    pub fn set_name(&mut self, name: &[u8])
        ensures
            final(self).number == old(self).number,
            final(self).frequency == old(self).frequency,
            final(self).mode == old(self).mode,
            final(self).active == old(self).active,
            final(self).name@ == stored_name(name@),
    {
        let mut i: usize = 0;
        while i < 8
            invariant
                i <= 8,
                self.number == old(self).number,
                self.frequency == old(self).frequency,
                self.mode == old(self).mode,
                self.active == old(self).active,
                forall|j: int| 0 <= j < i ==> self.name@[j] == stored_name(name@)[j],
            decreases 8 - i,
        {
            if i < name.len() {
                self.name[i] = name[i];
            } else {
                self.name[i] = 0;
            }
            i = i + 1;
        }
        assert(self.name@ =~= stored_name(name@));
    }
}

/// Number of channels in a memory bank.
pub const NUM_CHANNELS: usize = 100;

/// Number of channels in use among the first `n` of `chs`.
pub open spec fn count_active(chs: Seq<MemoryChannel>, n: int) -> nat
    decreases n,
{
    if n <= 0 {
        0
    } else {
        count_active(chs, n - 1) + if chs[n - 1].active { 1nat } else { 0nat }
    }
}

/// Position reached `i` steps forward from `start` on the ring of channels.
pub open spec fn ring_fwd(start: int, i: int) -> int {
    (start + i) % (NUM_CHANNELS as int)
}

/// Position reached `i` steps backward from `start` on the ring of channels.
pub open spec fn ring_back(start: int, i: int) -> int {
    (start - i) % (NUM_CHANNELS as int)
}

/// Whether `k` is the first channel in use met walking forward from the one
/// after `from`, wrapping around the ring.
pub open spec fn is_next_active(chs: Seq<MemoryChannel>, from: u8, k: int) -> bool {
    let start = (from + 1) % (NUM_CHANNELS as int);
    &&& 0 <= k < NUM_CHANNELS
    &&& chs[k].active
    &&& forall|j: int| 0 <= j < (k - start) % (NUM_CHANNELS as int) ==> !(#[trigger] chs[ring_fwd(start, j)]).active
}

/// Whether `k` is the first channel in use met walking backward from the one
/// before `from`, wrapping around the ring.
pub open spec fn is_prev_active(chs: Seq<MemoryChannel>, from: u8, k: int) -> bool {
    let start: int = if from == 0 { 99 } else { from - 1 };
    &&& 0 <= k < NUM_CHANNELS
    &&& chs[k].active
    &&& forall|j: int| 0 <= j < (start - k) % (NUM_CHANNELS as int) ==> !(#[trigger] chs[ring_back(start, j)]).active
}

/// Whether no channel of the bank is in use.
pub open spec fn none_active(chs: Seq<MemoryChannel>) -> bool {
    forall|k: int| 0 <= k < NUM_CHANNELS ==> !(#[trigger] chs[k]).active
}

/// Memory bank (100 channels)
pub struct MemoryBank {
    channels: [MemoryChannel; 100],
}

impl View for MemoryBank {
    type V = Seq<MemoryChannel>;

    closed spec fn view(&self) -> Seq<MemoryChannel> {
        self.channels@
    }
}

impl MemoryBank {
    /// Every bank holds exactly one hundred channels.
    pub proof fn lemma_len(&self)
        ensures
            self@.len() == NUM_CHANNELS,
    {
    }

    /// Create a new empty memory bank
    pub fn new() -> (r: Self)
        ensures
            r@.len() == NUM_CHANNELS,
            forall|k: int| 0 <= k < NUM_CHANNELS ==> (#[trigger] r@[k]).number == k && !r@[k].active,
    {
        let mut channels = [MemoryChannel::empty(0); 100];
        let mut i: usize = 0;
        while i < 100
            invariant
                i <= 100,
                forall|k: int| 0 <= k < i ==> (#[trigger] channels@[k]).number == k,
                forall|k: int| 0 <= k < 100 ==> !(#[trigger] channels@[k]).active,
            decreases 100 - i,
        {
            channels[i] = MemoryChannel::empty(i as u8);
            i = i + 1;
        }
        Self { channels }
    }

    /// Get channel by number
    pub fn get(&self, number: u8) -> (r: Option<&MemoryChannel>)
        ensures
            number < NUM_CHANNELS ==> r == Some(&self@[number as int]),
            number >= NUM_CHANNELS ==> r is None,
    {
        if (number as usize) < 100 {
            Some(&self.channels[number as usize])
        } else {
            None
        }
    }

    /// Get mutable channel by number
    pub fn get_mut(&mut self, number: u8) -> (r: Option<&mut MemoryChannel>)
        ensures
            number >= NUM_CHANNELS ==> r is None && final(self)@ == old(self)@,
            number < NUM_CHANNELS ==> (r matches Some(ch) && *ch == old(self)@[number as int]
                && final(self)@ == old(self)@.update(number as int, *final(ch))),
    {
        if (number as usize) < 100 {
            Some(&mut self.channels[number as usize])
        } else {
            None
        }
    }

    /// Store to channel
    pub fn store(&mut self, number: u8, settings: &VfoSettings) -> (r: bool)
        ensures
            r <==> number < NUM_CHANNELS,
            r ==> final(self)@ == old(self)@.update(
                number as int,
                MemoryChannel {
                    frequency: settings.frequency,
                    mode: settings.mode,
                    active: true,
                    ..old(self)@[number as int]
                },
            ),
            !r ==> final(self)@ == old(self)@,
    {
        if (number as usize) < 100 {
            let mut ch = self.channels[number as usize];
            ch.store(settings);
            self.channels[number as usize] = ch;
            true
        } else {
            false
        }
    }

    /// Recall from channel
    pub fn recall(&self, number: u8) -> (r: Option<VfoSettings>)
        ensures
            number < NUM_CHANNELS ==> r == recall_of(self@[number as int]),
            number >= NUM_CHANNELS ==> r is None,
    {
        match self.get(number) {
            Some(ch) => ch.recall(),
            None => None,
        }
    }

    /// Find next active channel
    pub fn next_active(&self, from: u8) -> (r: Option<u8>)
        ensures
            r is None <==> none_active(self@),
            r matches Some(k) ==> is_next_active(self@, from, k as int),
    {
        let start = (from as usize + 1) % 100;
        let mut i: usize = 0;
        while i < 100
            invariant
                i <= 100,
                start == (from + 1) % 100,
                forall|j: int| 0 <= j < i ==> !(#[trigger] self@[ring_fwd(start as int, j)]).active,
            decreases 100 - i,
        {
            let idx = (start + i) % 100;
            if self.channels[idx].active {
                assert((idx as int - start) % 100 == i as int);
                return Some(idx as u8);
            }
            i = i + 1;
        }
        assert forall|k: int| 0 <= k < NUM_CHANNELS implies !(#[trigger] self@[k]).active by {
            let j = (k - start) % 100;
            assert(ring_fwd(start as int, j) == k);
        }
        None
    }

    /// Find previous active channel
    pub fn prev_active(&self, from: u8) -> (r: Option<u8>)
        ensures
            r is None <==> none_active(self@),
            r matches Some(k) ==> is_prev_active(self@, from, k as int),
    {
        let start: usize = if from == 0 { 99 } else { from as usize - 1 };
        let mut i: usize = 0;
        while i < 100
            invariant
                i <= 100,
                start as int == (if from == 0 { 99 } else { from - 1 }),
                forall|j: int| 0 <= j < i ==> !(#[trigger] self@[ring_back(start as int, j)]).active,
            decreases 100 - i,
        {
            let idx = (start + 100 - i) % 100;
            assert(idx as int == ring_back(start as int, i as int));
            if self.channels[idx].active {
                assert((start as int - idx) % 100 == i as int);
                return Some(idx as u8);
            }
            i = i + 1;
        }
        assert forall|k: int| 0 <= k < NUM_CHANNELS implies !(#[trigger] self@[k]).active by {
            let j = (start - k) % 100;
            assert(ring_back(start as int, j) == k);
        }
        None
    }

    /// Count active channels
    pub fn active_count(&self) -> (r: usize)
        ensures
            r == count_active(self@, NUM_CHANNELS as int),
    {
        let mut count: usize = 0;
        let mut i: usize = 0;
        while i < 100
            invariant
                i <= 100,
                count == count_active(self@, i as int),
                count <= i,
            decreases 100 - i,
        {
            if self.channels[i].active {
                count = count + 1;
            }
            i = i + 1;
        }
        count
    }
}

impl Default for MemoryBank {
    fn default() -> (r: Self)
        ensures
            r@.len() == NUM_CHANNELS,
            forall|k: int| 0 <= k < NUM_CHANNELS ==> (#[trigger] r@[k]).number == k && !r@[k].active,
    {
        Self::new()
    }
}

/// A channel gives back what was stored in it: after storing settings in
/// channel `n`, recalling `n` returns exactly those settings, and every
/// other channel is as it was.
pub proof fn lemma_memory_store_recall(bank: Seq<MemoryChannel>, n: int, settings: VfoSettings)
    requires
        bank.len() == NUM_CHANNELS,
        0 <= n < NUM_CHANNELS,
    ensures
        ({
            let stored = bank.update(
                n,
                MemoryChannel { frequency: settings.frequency, mode: settings.mode, active: true, ..bank[n] },
            );
            &&& recall_of(stored[n]) == Some(settings)
            &&& forall|m: int| 0 <= m < NUM_CHANNELS && m != n ==> stored[m] == bank[m]
        }),
{
}

/// Changing one channel changes the count of channels in use among the
/// first `k` only by what that channel's use changed.
proof fn lemma_count_active_update(bank: Seq<MemoryChannel>, n: int, c: MemoryChannel, k: int)
    requires
        0 <= n < bank.len(),
        k <= bank.len(),
    ensures
        count_active(bank.update(n, c), k) == count_active(bank, k) + if 0 <= n < k {
            (if c.active { 1int } else { 0int }) - (if bank[n].active { 1int } else { 0int })
        } else {
            0int
        },
    decreases k,
{
    if k > 0 {
        lemma_count_active_update(bank, n, c, k - 1);
    }
}

/// Storing into a channel puts it in use: the count of channels in use
/// goes up by one when the channel was free and stays the same when it was
/// already in use.
pub proof fn lemma_store_active_count(bank: Seq<MemoryChannel>, n: int, settings: VfoSettings)
    requires
        bank.len() == NUM_CHANNELS,
        0 <= n < NUM_CHANNELS,
    ensures
        count_active(
            bank.update(
                n,
                MemoryChannel { frequency: settings.frequency, mode: settings.mode, active: true, ..bank[n] },
            ),
            NUM_CHANNELS as int,
        ) == count_active(bank, NUM_CHANNELS as int) + if bank[n].active { 0int } else { 1int },
{
    lemma_count_active_update(
        bank,
        n,
        MemoryChannel { frequency: settings.frequency, mode: settings.mode, active: true, ..bank[n] },
        NUM_CHANNELS as int,
    );
}

/// A cleared channel recalls nothing.
pub proof fn lemma_memory_clear_recall(ch: MemoryChannel)
    ensures
        recall_of(MemoryChannel { active: false, ..ch }) is None,
{
}

/// Swapping the VFOs twice restores them.
pub proof fn lemma_vfo_swap_involutive(m: VfoManagerModel)
    ensures
        ({
            let once = VfoManagerModel { vfo_a: m.vfo_b, vfo_b: m.vfo_a, ..m };
            VfoManagerModel { vfo_a: once.vfo_b, vfo_b: once.vfo_a, ..once } == m
        }),
{
}

/// Changing the selected VFO leaves the other VFO, the selection and the
/// split setting alone.
pub proof fn lemma_vfo_change_only_selected(m: VfoManagerModel, v: VfoSettings)
    ensures
        vfo_of(with_vfo(m, m.selected, v), m.selected) == v,
        vfo_of(with_vfo(m, m.selected, v), m.selected.toggle()) == vfo_of(m, m.selected.toggle()),
        with_vfo(m, m.selected, v).selected == m.selected,
        with_vfo(m, m.selected, v).split == m.split,
{
}

/// In split mode the radio receives on the selected VFO and transmits on
/// the other; otherwise both use the selected VFO.
pub proof fn lemma_split_uses_other_vfo(m: VfoManagerModel)
    ensures
        m.split ==> tx_vfo_of(m) == vfo_of(m, m.selected.toggle()),
        !m.split ==> tx_vfo_of(m) == vfo_of(m, m.selected),
{
}

} // verus!
