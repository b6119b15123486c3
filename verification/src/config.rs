//! The host-configurable key map: an ordered table of per-button key
//! descriptors with byte-exact serialization and sentinel-based partial
//! update, plus the derivation of outbound HID report payloads.

use vstd::prelude::*;

verus! {

/// Number of button slots in the bank.
pub const BUTTON_COUNT: usize = 4;

/// Number of per-button fields carried by a configuration payload
/// (kind, keycode, modifier).
pub const FIELD_COUNT: usize = 3;

/// Exact byte length of a configuration payload and of a serialized key map.
pub const CONFIG_LEN: usize = FIELD_COUNT * BUTTON_COUNT;

/// Byte offset of the persisted key map inside the flash.
pub const CONFIG_OFFSET: u32 = 0xc000;

/// Size of the erase sector that spans the persisted key map.
pub const SECTOR_SIZE: u32 = 16 * 1024;

/// A configuration payload whose length is not exactly `CONFIG_LEN` bytes.
#[derive(Clone, Copy, Debug, PartialEq, Eq, Structural)]
pub struct LengthError;

/// Mathematical view of a key map: one byte sequence per field, each indexed
/// by button slot.
#[verifier::ext_equal]
pub ghost struct MapView {
    pub types: Seq<u8>,
    pub keys: Seq<u8>,
    pub modifiers: Seq<u8>,
}

/// Every byte of `s` is the sentinel value `0xFF`.
pub open spec fn all_ff(s: Seq<u8>) -> bool {
    forall|i: int| 0 <= i < s.len() ==> s[i] == 0xffu8
}

impl MapView {
    /// Each field holds exactly one byte per button slot.
    pub open spec fn wf(self) -> bool {
        &&& self.types.len() == BUTTON_COUNT
        &&& self.keys.len() == BUTTON_COUNT
        &&& self.modifiers.len() == BUTTON_COUNT
    }

    /// The byte layout of a key map: the fields concatenated in fixed order.
    pub open spec fn serialize(self) -> Seq<u8> {
        self.types + self.keys + self.modifiers
    }

    /// One field of a partial update: an all-sentinel sub-array leaves the
    /// field untouched, any other sub-array replaces it wholesale.
    pub open spec fn apply_field(cur: Seq<u8>, incoming: Seq<u8>) -> Seq<u8> {
        if all_ff(incoming) {
            cur
        } else {
            incoming
        }
    }

    /// The effect of a well-sized configuration payload: the payload is split
    /// into `FIELD_COUNT` equal sub-arrays and each is applied to its field.
    pub open spec fn apply(self, bytes: Seq<u8>) -> MapView {
        MapView {
            types: Self::apply_field(self.types, bytes.subrange(0, BUTTON_COUNT as int)),
            keys: Self::apply_field(
                self.keys,
                bytes.subrange(BUTTON_COUNT as int, 2 * BUTTON_COUNT as int),
            ),
            modifiers: Self::apply_field(
                self.modifiers,
                bytes.subrange(2 * BUTTON_COUNT as int, 3 * BUTTON_COUNT as int),
            ),
        }
    }
}

/// The compiled-in default mapping: four keyboard keys, no modifiers.
pub open spec fn spec_default_map() -> MapView {
    MapView {
        types: seq![0u8, 0u8, 0u8, 0u8],
        keys: seq![0x68u8, 0x69u8, 0x6au8, 0x6bu8],
        modifiers: seq![0u8, 0u8, 0u8, 0u8],
    }
}

/// The key map: per-slot key kinds, keycodes and modifiers.
pub struct Config {
    pub types: Vec<u8>,
    pub keys: Vec<u8>,
    pub modifiers: Vec<u8>,
}

impl View for Config {
    type V = MapView;

    open spec fn view(&self) -> MapView {
        MapView { types: self.types@, keys: self.keys@, modifiers: self.modifiers@ }
    }
}

impl Default for Config {
    /// The mapping used when the flash region holds no configuration.
    fn default() -> (c: Self)
        ensures
            c@ == spec_default_map(),
    {
        let types = four_bytes(0, 0, 0, 0);
        let keys = four_bytes(0x68, 0x69, 0x6a, 0x6b);
        let modifiers = four_bytes(0, 0, 0, 0);
        Config { types, keys, modifiers }
    }
}

/// Builds the one-byte-per-slot vector for one field.
fn four_bytes(a: u8, b: u8, c: u8, d: u8) -> (r: Vec<u8>)
    ensures
        r@ =~= seq![a, b, c, d],
{
    let mut r: Vec<u8> = Vec::new();
    r.push(a);
    r.push(b);
    r.push(c);
    r.push(d);
    r
}

/// Copies `len` bytes of `bytes` starting at `start` into a fresh vector.
fn copy_chunk(bytes: &[u8], start: usize, len: usize) -> (r: Vec<u8>)
    requires
        start + len <= bytes@.len(),
    ensures
        r@ == bytes@.subrange(start as int, start as int + len as int),
{
    let total: usize = bytes.len();
    let mut r: Vec<u8> = Vec::new();
    let mut i: usize = 0;
    while i < len
        invariant
            start + len <= total,
            total == bytes@.len(),
            i <= len,
            r@ == bytes@.subrange(start as int, start as int + i as int),
        decreases len - i,
    {
        r.push(bytes[start + i]);
        i = i + 1;
        assert(r@ =~= bytes@.subrange(start as int, start as int + i as int));
    }
    r
}

/// Tests whether every byte of a field-sized chunk is the sentinel `0xFF`.
fn chunk_is_all_ff(chunk: &Vec<u8>) -> (b: bool)
    ensures
        b == all_ff(chunk@),
{
    let mut i: usize = 0;
    while i < chunk.len()
        invariant
            i <= chunk@.len(),
            forall|j: int| 0 <= j < i ==> chunk@[j] == 0xffu8,
        decreases chunk@.len() - i,
    {
        if chunk[i] != 0xff {
            assert(!all_ff(chunk@));
            return false;
        }
        i = i + 1;
    }
    true
}

impl Config {
    /// The key map holds one byte per slot in each field.
    pub open spec fn wf(self) -> bool {
        self@.wf()
    }

    /// A zeroed buffer sized to hold one serialized key map.
    pub fn alloc_buf(&self) -> (r: Vec<u8>)
        ensures
            r@.len() == CONFIG_LEN,
            forall|i: int| 0 <= i < r@.len() ==> r@[i] == 0u8,
    {
        let mut r: Vec<u8> = Vec::new();
        let mut i: usize = 0;
        while i < CONFIG_LEN
            invariant
                i <= CONFIG_LEN,
                r@.len() == i,
                forall|j: int| 0 <= j < i ==> r@[j] == 0u8,
            decreases CONFIG_LEN - i,
        {
            r.push(0);
            i = i + 1;
        }
        r
    }

    /// Applies a host configuration payload. A payload of any length other
    /// than `CONFIG_LEN` is rejected and the map is left untouched; a
    /// well-sized payload is split into equal sub-arrays and each sub-array
    /// that is not entirely `0xFF` replaces its field.
    pub fn update(&mut self, bytes: &[u8]) -> (r: Result<(), LengthError>)
        ensures
            bytes@.len() == CONFIG_LEN ==> r is Ok && final(self)@ == old(self)@.apply(bytes@),
            bytes@.len() != CONFIG_LEN ==> r is Err && final(self)@ == old(self)@,
    {
        if bytes.len() != CONFIG_LEN {
            return Err(LengthError);
        }
        let types = copy_chunk(bytes, 0, BUTTON_COUNT);
        let keys = copy_chunk(bytes, BUTTON_COUNT, BUTTON_COUNT);
        let modifiers = copy_chunk(bytes, 2 * BUTTON_COUNT, BUTTON_COUNT);
        if !chunk_is_all_ff(&types) {
            self.types = types;
        }
        if !chunk_is_all_ff(&keys) {
            self.keys = keys;
        }
        if !chunk_is_all_ff(&modifiers) {
            self.modifiers = modifiers;
        }
        assert(self@ =~= old(self)@.apply(bytes@));
        Ok(())
    }

    /// Serializes the key map into its exact `CONFIG_LEN`-byte layout:
    /// the fields concatenated in fixed order.
    pub fn to_bytes(&self) -> (r: Vec<u8>)
        ensures
            r@ == self@.serialize(),
    {
        let mut r: Vec<u8> = Vec::new();
        r.extend_from_slice(self.types.as_slice());
        r.extend_from_slice(self.keys.as_slice());
        r.extend_from_slice(self.modifiers.as_slice());
        assert(r@ =~= self@.serialize());
        r
    }
}

/// The 8-byte USB HID keyboard input report payload: modifier byte, reserved
/// byte, LED state, six keycode slots.
#[derive(Clone, Copy, Debug)]
pub struct KeyboardReport {
    pub modifier: u8,
    pub reserved: u8,
    pub leds: u8,
    pub keycodes: [u8; 6],
}

/// The 2-byte USB HID consumer-control input report payload.
#[derive(Clone, Copy, Debug)]
pub struct MediaKeyboardReport {
    pub usage_id: u16,
}

/// The outbound report resolved for one edge event: a keyboard report, a
/// media-control report, or none at all.
#[derive(Clone, Copy, Debug)]
pub enum Key {
    Keyboard(KeyboardReport),
    Media(MediaKeyboardReport),
    Unknown,
}

/// The key kind encoded by a slot's type byte: `0` is a keyboard key, `1` a
/// media-control key, anything else is unknown.
#[derive(Clone, Copy, Debug, PartialEq, Eq, Structural)]
pub enum KeyKind {
    Keyboard,
    Media,
    Unknown,
}

/// One button slot's entry in the key map.
#[derive(Clone, Copy, Debug, PartialEq, Eq, Structural)]
pub struct KeyDescriptor {
    pub kind: KeyKind,
    pub keycode: u8,
    pub modifiers: u8,
}

/// The key kind denoted by a type byte.
pub open spec fn spec_kind(t: u8) -> KeyKind {
    if t == 0 {
        KeyKind::Keyboard
    } else if t == 1 {
        KeyKind::Media
    } else {
        KeyKind::Unknown
    }
}

/// `r` is the press report of slot `i` of map `m`: a keyboard report with the
/// slot's keycode in the first key slot and its modifier set, a media report
/// with the slot's usage id, or no report for an unknown kind.
pub open spec fn is_press_report(m: MapView, i: int, r: Key) -> bool {
    match r {
        Key::Keyboard(kr) => {
            &&& m.types[i] == 0
            &&& kr.modifier == m.modifiers[i]
            &&& kr.reserved == 0
            &&& kr.leds == 0
            &&& kr.keycodes@.len() == 6
            &&& kr.keycodes@[0] == m.keys[i]
            &&& forall|k: int| 1 <= k < 6 ==> kr.keycodes@[k] == 0u8
        },
        Key::Media(mr) => m.types[i] == 1 && mr.usage_id == m.keys[i] as u16,
        Key::Unknown => m.types[i] != 0 && m.types[i] != 1,
    }
}

/// `r` is the release report of slot `i` of map `m`: the same report kind as
/// the press report, with all keys, modifiers and usage ids cleared.
pub open spec fn is_release_report(m: MapView, i: int, r: Key) -> bool {
    match r {
        Key::Keyboard(kr) => {
            &&& m.types[i] == 0
            &&& kr.modifier == 0
            &&& kr.reserved == 0
            &&& kr.leds == 0
            &&& kr.keycodes@.len() == 6
            &&& forall|k: int| 0 <= k < 6 ==> kr.keycodes@[k] == 0u8
        },
        Key::Media(mr) => m.types[i] == 1 && mr.usage_id == 0,
        Key::Unknown => m.types[i] != 0 && m.types[i] != 1,
    }
}

impl Config {
    /// The key descriptor of one button slot.
    pub fn lookup(&self, idx: usize) -> (d: KeyDescriptor)
        requires
            self.wf(),
            idx < BUTTON_COUNT,
        ensures
            d.kind == spec_kind(self@.types[idx as int]),
            d.keycode == self@.keys[idx as int],
            d.modifiers == self@.modifiers[idx as int],
    {
        let kind = match self.types[idx] {
            0 => KeyKind::Keyboard,
            1 => KeyKind::Media,
            _ => KeyKind::Unknown,
        };
        KeyDescriptor { kind, keycode: self.keys[idx], modifiers: self.modifiers[idx] }
    }

    /// The outbound report for a press of slot `idx`, dispatched on the
    /// slot's key kind.
    pub fn get_key_report(&self, idx: usize) -> (r: Key)
        requires
            self.wf(),
            idx < BUTTON_COUNT,
        ensures
            is_press_report(self@, idx as int, r),
    {
        match self.types[idx] {
            0 => Key::Keyboard(
                KeyboardReport {
                    keycodes: [self.keys[idx], 0, 0, 0, 0, 0],
                    leds: 0,
                    modifier: self.modifiers[idx],
                    reserved: 0,
                },
            ),
            1 => Key::Media(MediaKeyboardReport { usage_id: self.keys[idx] as u16 }),
            _ => Key::Unknown,
        }
    }

    /// The outbound report for a release of slot `idx`: the slot's report
    /// kind with every key, modifier and usage id cleared.
    pub fn get_zero_report(&self, idx: usize) -> (r: Key)
        requires
            self.wf(),
            idx < BUTTON_COUNT,
        ensures
            is_release_report(self@, idx as int, r),
    {
        match self.types[idx] {
            0 => Key::Keyboard(
                KeyboardReport { keycodes: [0, 0, 0, 0, 0, 0], leds: 0, modifier: 0, reserved: 0 },
            ),
            1 => Key::Media(MediaKeyboardReport { usage_id: 0 }),
            _ => Key::Unknown,
        }
    }
}

/// A full serialization deserializes back to the same key map: no field of a
/// serialized map can act as a sentinel for itself, because an all-`0xFF`
/// sub-array then matches the field it came from.
pub proof fn lemma_round_trip(m: MapView)
    requires
        m.wf(),
    ensures
        m.apply(m.serialize()) == m,
{
    let s = m.serialize();
    assert(s.subrange(0, BUTTON_COUNT as int) =~= m.types);
    assert(s.subrange(BUTTON_COUNT as int, 2 * BUTTON_COUNT as int) =~= m.keys);
    assert(s.subrange(2 * BUTTON_COUNT as int, 3 * BUTTON_COUNT as int) =~= m.modifiers);
    assert(m.apply(s) =~= m);
}

/// The payload whose every byte is the sentinel value.
pub open spec fn blank_payload() -> Seq<u8> {
    Seq::new(CONFIG_LEN as nat, |i: int| 0xffu8)
}

/// An all-sentinel payload changes nothing.
pub proof fn lemma_blank_payload_no_change(m: MapView)
    ensures
        m.apply(blank_payload()) == m,
{
    let b = blank_payload();
    assert(all_ff(b.subrange(0, BUTTON_COUNT as int)));
    assert(all_ff(b.subrange(BUTTON_COUNT as int, 2 * BUTTON_COUNT as int)));
    assert(all_ff(b.subrange(2 * BUTTON_COUNT as int, 3 * BUTTON_COUNT as int)));
    assert(m.apply(b) =~= m);
}

/// `n` successive applications of one payload.
pub open spec fn apply_n(m: MapView, bytes: Seq<u8>, n: nat) -> MapView
    decreases n,
{
    if n == 0 {
        m
    } else {
        apply_n(m, bytes, (n - 1) as nat).apply(bytes)
    }
}

/// Applying an all-sentinel payload any number of times changes nothing.
pub proof fn lemma_blank_payload_idempotent(m: MapView, n: nat)
    ensures
        apply_n(m, blank_payload(), n) == m,
    decreases n,
{
    if n > 0 {
        lemma_blank_payload_idempotent(m, (n - 1) as nat);
        lemma_blank_payload_no_change(m);
    }
}

} // verus!
