use vstd::prelude::*;
use crate::input::hotkey::{utf16_encode, encode_utf16};
use crate::hid::device::{from_utf16_lossy, utf16_lossy};

verus! {

/// Standard clipboard formats that the copy of the clipboard treats apart.
pub const CF_TEXT: u32 = 1;
pub const CF_BITMAP: u32 = 2;
pub const CF_OEMTEXT: u32 = 7;
pub const CF_DIB: u32 = 8;
pub const CF_PALETTE: u32 = 9;
pub const CF_UNICODETEXT: u32 = 13;
pub const CF_ENHMETAFILE: u32 = 14;
pub const CF_DIBV5: u32 = 17;
pub const CF_DSPENHMETAFILE: u32 = 0x8E;

pub const BIT_DIB: u8 = 0x01;
pub const BIT_DIBV5: u8 = 0x02;
pub const BIT_TEXT: u8 = 0x10;
pub const BIT_OEMTEXT: u8 = 0x20;
pub const BIT_UNICODETEXT: u8 = 0x40;

/// The little-endian bytes of `x`.
pub open spec fn le32(x: u32) -> Seq<u8> {
    seq![x as u8, (x >> 8u32) as u8, (x >> 16u32) as u8, (x >> 24u32) as u8]
}

/// The integer of four little-endian bytes.
pub open spec fn from_le(b: Seq<u8>) -> u32 {
    (b[0] as u32) | ((b[1] as u32) << 8u32) | ((b[2] as u32) << 16u32) | ((b[3] as u32) << 24u32)
}

/// The record of one clipboard item: its format, its size, its bytes.
pub open spec fn record(it: (u32, Seq<u8>)) -> Seq<u8> {
    le32(it.0) + le32(it.1.len() as u32) + it.1
}

/// The records of the items, one after another.
pub open spec fn records(items: Seq<(u32, Seq<u8>)>) -> Seq<u8>
    decreases items.len(),
{
    if items.len() == 0 {
        Seq::empty()
    } else {
        record(items[0]) + records(items.skip(1))
    }
}

/// The bytes of a copy of the clipboard: the records, closed by a zero
/// format; nothing at all for an empty clipboard.
pub open spec fn raw_bytes(items: Seq<(u32, Seq<u8>)>) -> Seq<u8> {
    if items.len() == 0 {
        Seq::empty()
    } else {
        records(items) + le32(0)
    }
}

/// Whether an item can be recorded: a non-zero format (zero closes the
/// records) with data whose size fits the record.
pub open spec fn item_ok(it: (u32, Seq<u8>)) -> bool {
    it.0 != 0 && 0 < it.1.len() <= u32::MAX
}

pub open spec fn items_ok(items: Seq<(u32, Seq<u8>)>) -> bool {
    forall|i: int| 0 <= i < items.len() ==> item_ok(#[trigger] items[i])
}

/// The items that a byte string records, up to the closing zero format;
/// `None` where it breaks off.
#[verifier::opaque]
pub open spec fn parse(b: Seq<u8>) -> Option<Seq<(u32, Seq<u8>)>>
    decreases b.len(),
{
    if b.len() < 4 {
        None
    } else if from_le(b.take(4)) == 0 {
        Some(Seq::empty())
    } else if b.len() < 8 {
        None
    } else {
        let n = from_le(b.subrange(4, 8)) as int;
        if b.len() < 8 + n {
            None
        } else {
            match parse(b.skip(8 + n)) {
                Some(rest) => Some(seq![(from_le(b.take(4)), b.subrange(8, 8 + n))] + rest),
                None => None,
            }
        }
    }
}

proof fn lemma_le32(x: u32)
    ensures
        from_le(le32(x)) == x,
        le32(x).len() == 4,
{
    let b = le32(x);
    assert(b[0] == x as u8 && b[1] == (x >> 8u32) as u8 && b[2] == (x >> 16u32) as u8 && b[3] == (x >> 24u32)
        as u8);
    assert(((x as u8) as u32) | ((((x >> 8u32) as u8) as u32) << 8u32) | ((((x >> 16u32) as u8) as u32) << 16u32)
        | ((((x >> 24u32) as u8) as u32) << 24u32) == x) by (bit_vector);
}

/// Reading back the bytes of a copy gives the items that were recorded.
pub proof fn law_raw_roundtrip(items: Seq<(u32, Seq<u8>)>)
    requires
        items_ok(items),
    ensures
        items.len() > 0 ==> parse(raw_bytes(items)) == Some(items),
    decreases items.len(),
{
    if items.len() > 0 {
        lemma_parse_records(items);
    }
}

/// A copy of an empty clipboard has no bytes; any other copy ends with the
/// closing zero format, four zero bytes.
pub proof fn law_copy_closed(items: Seq<(u32, Seq<u8>)>)
    ensures
        items.len() == 0 ==> raw_bytes(items).len() == 0,
        items.len() > 0 ==> ({
            let b = raw_bytes(items);
            b.len() >= 4 && b.subrange(b.len() - 4, b.len() as int) == seq![0u8, 0u8, 0u8, 0u8]
        }),
{
    let z: u32 = 0;
    assert(z as u8 == 0 && (z >> 8u32) as u8 == 0 && (z >> 16u32) as u8 == 0 && (z >> 24u32) as u8 == 0)
        by (bit_vector)
        requires
            z == 0,
    ;
    if items.len() > 0 {
        let b = raw_bytes(items);
        assert(b.subrange(b.len() - 4, b.len() as int) =~= le32(0));
    }
}

proof fn lemma_parse_cons(f: u32, d: Seq<u8>, tail: Seq<u8>)
    requires
        item_ok((f, d)),
    ensures
        parse(record((f, d)) + tail) == match parse(tail) {
            Some(r) => Some(seq![(f, d)] + r),
            None => None,
        },
{
    reveal(parse);
    let n: int = d.len() as int;
    lemma_le32(f);
    lemma_le32(n as u32);
    let b = record((f, d)) + tail;
    assert(b.take(4) =~= le32(f));
    assert(b.subrange(4, 8) =~= le32(n as u32));
    assert(b.subrange(8, 8 + n) =~= d);
    assert(b.skip(8 + n) =~= tail);
}

proof fn lemma_parse_records(items: Seq<(u32, Seq<u8>)>)
    requires
        items_ok(items),
    ensures
        parse(records(items) + le32(0)) == Some(items),
    decreases items.len(),
{
    lemma_le32(0);
    if items.len() == 0 {
        reveal(parse);
        assert(records(items) + le32(0) =~= le32(0));
        assert((records(items) + le32(0)).take(4) =~= le32(0));
        assert(items =~= Seq::<(u32, Seq<u8>)>::empty());
    } else {
        let it = items[0];
        let rest = items.skip(1);
        assert(items_ok(rest)) by {
            assert forall|i: int| 0 <= i < rest.len() implies item_ok(#[trigger] rest[i]) by {
                assert(rest[i] == items[i + 1]);
            }
        }
        assert(item_ok(items[0]));
        lemma_parse_records(rest);
        lemma_parse_cons(it.0, it.1, records(rest) + le32(0));
        assert(records(items) + le32(0) =~= record((it.0, it.1)) + (records(rest) + le32(0)));
        assert(seq![(it.0, it.1)] + rest =~= items);
    }
}

/// A copy of the clipboard's contents.
pub struct RawData {
    data: Vec<u8>,
}

impl RawData {
    /// The bytes are empty or record items up to a closing zero format.
    #[verifier::type_invariant]
    spec fn wf(self) -> bool {
        self.data@.len() == 0 || parse(self.data@) is Some
    }

    pub closed spec fn view(self) -> Seq<u8> {
        self.data@
    }

    /// The items recorded.
    pub closed spec fn items(self) -> Seq<(u32, Seq<u8>)> {
        if self.data@.len() == 0 {
            Seq::empty()
        } else {
            parse(self.data@).unwrap()
        }
    }

    /// The copy of the items, in their order.
    pub fn encode(items: &Vec<ClipItem>) -> (r: RawData)
        requires
            items_ok(items_view(items@)),
        ensures
            r.view() == raw_bytes(items_view(items@)),
            r.items() == items_view(items@),
    {
        let ghost its = items_view(items@);
        let mut data = encode_records(items);
        if items.len() != 0 {
            push_le32(&mut data, 0);
            proof {
                lemma_parse_records(its);
            }
        }
        RawData { data }
    }

    /// The items recorded, in their order.
    pub fn entries(&self) -> (r: Vec<ClipItem>)
        ensures
            items_view(r@) == self.items(),
    {
        proof {
            use_type_invariant(self);
        }
        let mut r: Vec<ClipItem> = Vec::new();
        if self.data.len() == 0 {
            assert(items_view(r@) =~= self.items());
            return r;
        }
        let mut offset: usize = 0;
        let ghost b = self.data@;
        assert(b.skip(0) =~= b);
        proof {
            reveal(parse);
        }
        loop
            invariant
                b == self.data@,
                b.len() == self.data.len(),
                offset <= b.len(),
                parse(b.skip(offset as int)) is Some,
                items_view(r@) + parse(b.skip(offset as int)).unwrap() == parse(b).unwrap(),
            ensures
                items_view(r@) == parse(b).unwrap(),
            decreases b.len() - offset,
        {
            proof {
                reveal(parse);
            }
            let ghost rest = b.skip(offset as int);
            assert(rest.len() >= 4);
            let fmt = read_le32(&self.data, offset);
            assert(rest.take(4) =~= b.subrange(offset as int, offset + 4));
            if fmt == 0 {
                assert(parse(rest) == Some(Seq::<(u32, Seq<u8>)>::empty()));
                assert(items_view(r@) + Seq::<(u32, Seq<u8>)>::empty() =~= items_view(r@));
                break;
            }
            assert(rest.len() >= 8);
            let size = read_le32(&self.data, offset + 4) as usize;
            assert(rest.subrange(4, 8) =~= b.subrange(offset + 4, offset + 8));
            assert(rest.len() >= 8 + size);
            let start = offset + 8;
            let mut data: Vec<u8> = Vec::new();
            let mut j: usize = 0;
            while j < size
                invariant
                    j <= size,
                    start + size <= b.len(),
                    b == self.data@,
                    b.len() == self.data.len(),
                    data@ == b.subrange(start as int, start + j),
                decreases size - j,
            {
                data.push(self.data[start + j]);
                j = j + 1;
                assert(data@ =~= b.subrange(start as int, start + j));
            }
            proof {
                assert(rest.subrange(8, 8 + size) =~= data@);
                assert(rest.skip(8 + size) =~= b.skip(start + size));
                let tail = parse(b.skip(start + size)).unwrap();
                assert(items_view(r@.push(ClipItem { format: fmt, data })) =~= items_view(r@).push(
                    (fmt, data@),
                ));
                assert(seq![(fmt, data@)] + tail =~= parse(rest).unwrap());
                assert(items_view(r@).push((fmt, data@)) + tail =~= items_view(r@) + (seq![(fmt, data@)] + tail));
            }
            r.push(ClipItem { format: fmt, data });
            offset = start + size;
        }
        r
    }

    pub fn is_empty(&self) -> (r: bool)
        ensures
            r == (self.view().len() == 0),
    {
        self.data.len() == 0
    }

    pub fn size(&self) -> (r: usize)
        ensures
            r == self.view().len(),
    {
        self.data.len()
    }

    pub fn data(&self) -> (r: &[u8])
        ensures
            r@ == self.view(),
    {
        self.data.as_slice()
    }
}

/// One clipboard format and its data.
pub struct ClipItem {
    pub format: u32,
    pub data: Vec<u8>,
}

pub open spec fn items_view(v: Seq<ClipItem>) -> Seq<(u32, Seq<u8>)> {
    v.map_values(|it: ClipItem| (it.format, it.data@))
}

proof fn lemma_records_push(items: Seq<(u32, Seq<u8>)>, it: (u32, Seq<u8>))
    ensures
        records(items.push(it)) == records(items) + record(it),
    decreases items.len(),
{
    if items.len() == 0 {
        assert(items.push(it)[0] == it);
        assert(items.push(it).skip(1) =~= Seq::<(u32, Seq<u8>)>::empty());
        assert(records(Seq::<(u32, Seq<u8>)>::empty()) == Seq::<u8>::empty());
        assert(record(it) + Seq::<u8>::empty() =~= record(it));
        assert(records(items) == Seq::<u8>::empty());
        assert(Seq::<u8>::empty() + record(it) =~= record(it));
    } else {
        lemma_records_push(items.skip(1), it);
        assert(items.push(it).skip(1) =~= items.skip(1).push(it));
        assert(items.push(it)[0] == items[0]);
        assert(record(items[0]) + (records(items.skip(1)) + record(it)) =~= (record(items[0]) + records(
            items.skip(1),
        )) + record(it));
    }
}

/// The records of the items, one after another.
fn encode_records(items: &Vec<ClipItem>) -> (r: Vec<u8>)
    requires
        items_ok(items_view(items@)),
    ensures
        r@ == records(items_view(items@)),
{
    let ghost its = items_view(items@);
    let mut data: Vec<u8> = Vec::new();
    let mut i: usize = 0;
    while i < items.len()
        invariant
            i <= items@.len(),
            its == items_view(items@),
            items_ok(its),
            data@ == records(its.take(i as int)),
        decreases items@.len() - i,
    {
        let it = &items[i];
        assert(its[i as int] == (it.format, it.data@));
        assert(item_ok(its[i as int]));
        push_record(&mut data, it);
        proof {
            lemma_records_push(its.take(i as int), its[i as int]);
            assert(its.take(i as int).push(its[i as int]) =~= its.take(i + 1));
        }
        i = i + 1;
    }
    assert(its.take(its.len() as int) =~= its);
    data
}

/// Appends the record of an item.
fn push_record(data: &mut Vec<u8>, it: &ClipItem)
    requires
        item_ok((it.format, it.data@)),
    ensures
        final(data)@ == old(data)@ + record((it.format, it.data@)),
{
    push_le32(data, it.format);
    push_le32(data, it.data.len() as u32);
    let ghost before = data@;
    let mut j: usize = 0;
    while j < it.data.len()
        invariant
            j <= it.data@.len(),
            data@ == before + it.data@.take(j as int),
        decreases it.data@.len() - j,
    {
        data.push(it.data[j]);
        j = j + 1;
        assert(data@ =~= before + it.data@.take(j as int));
    }
    assert(it.data@.take(j as int) =~= it.data@);
    assert(data@ =~= old(data)@ + record((it.format, it.data@)));
}

fn push_le32(v: &mut Vec<u8>, x: u32)
    ensures
        final(v)@ == old(v)@ + le32(x),
{
    v.push((x & 0xFF) as u8);
    v.push(((x >> 8) & 0xFF) as u8);
    v.push(((x >> 16) & 0xFF) as u8);
    v.push(((x >> 24) & 0xFF) as u8);
    assert((x & 0xFF) as u8 == x as u8 && ((x >> 8) & 0xFF) as u8 == (x >> 8u32) as u8 && ((x >> 16) & 0xFF) as u8
        == (x >> 16u32) as u8 && ((x >> 24) & 0xFF) as u8 == (x >> 24u32) as u8) by (bit_vector);
    assert(v@ =~= old(v)@ + le32(x));
}

fn read_le32(v: &Vec<u8>, at: usize) -> (r: u32)
    requires
        at + 4 <= v.len(),
    ensures
        r == from_le(v@.subrange(at as int, at + 4)),
{
    let (b0, b1, b2, b3) = (v[at], v[at + 1], v[at + 2], v[at + 3]);
    (b0 as u32) | ((b1 as u32) << 8) | ((b2 as u32) << 16) | ((b3 as u32) << 24)
}

/// Which clipboard formats a copy takes: the system offers some formats
/// synthesized from others, and only one of each group is kept.
pub struct FormatFilter {
    state: u8,
}

/// Whether a format is taken after the formats behind `state`, and the state after it.
pub open spec fn filter_step(state: u8, fmt: u32) -> (bool, u8) {
    let f = fmt as u16 as u32;
    if f == CF_BITMAP || f == CF_ENHMETAFILE || f == CF_DSPENHMETAFILE {
        (false, state)
    } else if f == CF_DIB {
        if state & BIT_DIBV5 != 0 {
            (false, state)
        } else {
            (true, state | BIT_DIB)
        }
    } else if f == CF_DIBV5 {
        if state & BIT_DIB != 0 {
            (false, state)
        } else {
            (true, state | BIT_DIBV5)
        }
    } else if f == CF_PALETTE {
        (state & (BIT_DIB | BIT_DIBV5) == 0, state)
    } else if f == CF_TEXT {
        if state & (BIT_OEMTEXT | BIT_UNICODETEXT) != 0 {
            (false, state)
        } else {
            (true, state | BIT_TEXT)
        }
    } else if f == CF_OEMTEXT {
        if state & (BIT_TEXT | BIT_UNICODETEXT) != 0 {
            (false, state)
        } else {
            (true, state | BIT_OEMTEXT)
        }
    } else if f == CF_UNICODETEXT {
        if state & (BIT_TEXT | BIT_OEMTEXT) != 0 {
            (false, state)
        } else {
            (true, state | BIT_UNICODETEXT)
        }
    } else {
        (true, state)
    }
}

impl FormatFilter {
    pub closed spec fn view(self) -> u8 {
        self.state
    }

    pub fn new() -> (r: Self)
        ensures
            r.view() == 0,
    {
        FormatFilter { state: 0 }
    }

    /// Whether the data of `fmt`, the next format that the clipboard
    /// offers, is to be copied.
    pub fn accept(&mut self, fmt: u32) -> (r: bool)
        ensures
            (r, final(self).view()) == filter_step(old(self).view(), fmt),
    {
        let f = fmt as u16 as u32;
        let state = self.state;
        if f == CF_BITMAP || f == CF_ENHMETAFILE || f == CF_DSPENHMETAFILE {
            // their size cannot be taken; the bitmap comes as a DIB too
            false
        } else if f == CF_DIB {
            if state & BIT_DIBV5 != 0 {
                false
            } else {
                self.state = state | BIT_DIB;
                true
            }
        } else if f == CF_DIBV5 {
            if state & BIT_DIB != 0 {
                false
            } else {
                self.state = state | BIT_DIBV5;
                true
            }
        } else if f == CF_PALETTE {
            state & (BIT_DIB | BIT_DIBV5) == 0
        } else if f == CF_TEXT {
            if state & (BIT_OEMTEXT | BIT_UNICODETEXT) != 0 {
                false
            } else {
                self.state = state | BIT_TEXT;
                true
            }
        } else if f == CF_OEMTEXT {
            if state & (BIT_TEXT | BIT_UNICODETEXT) != 0 {
                false
            } else {
                self.state = state | BIT_OEMTEXT;
                true
            }
        } else if f == CF_UNICODETEXT {
            if state & (BIT_TEXT | BIT_OEMTEXT) != 0 {
                false
            } else {
                self.state = state | BIT_UNICODETEXT;
                true
            }
        } else {
            true
        }
    }
}

/// The formats taken from a run of offered formats, starting after `state`.
pub open spec fn run_filter(state: u8, fmts: Seq<u32>) -> Seq<u32>
    decreases fmts.len(),
{
    if fmts.len() == 0 {
        Seq::empty()
    } else {
        let (take, next) = filter_step(state, fmts[0]);
        (if take {
            seq![fmts[0]]
        } else {
            Seq::empty()
        }) + run_filter(next, fmts.skip(1))
    }
}

pub open spec fn is_text_format(f: u32) -> bool {
    let g = f as u16 as u32;
    g == CF_TEXT || g == CF_OEMTEXT || g == CF_UNICODETEXT
}

pub open spec fn is_dib_format(f: u32) -> bool {
    let g = f as u16 as u32;
    g == CF_DIB || g == CF_DIBV5
}

/// Formats whose size cannot be taken.
pub open spec fn is_unsized_format(f: u32) -> bool {
    let g = f as u16 as u32;
    g == CF_BITMAP || g == CF_ENHMETAFILE || g == CF_DSPENHMETAFILE
}

/// How many formats of a run are text formats, device-independent bitmaps,
/// and formats whose size cannot be taken.
pub open spec fn group_counts(s: Seq<u32>) -> (nat, nat, nat)
    decreases s.len(),
{
    if s.len() == 0 {
        (0, 0, 0)
    } else {
        let r = group_counts(s.skip(1));
        (
            r.0 + if is_text_format(s[0]) {
                1nat
            } else {
                0nat
            },
            r.1 + if is_dib_format(s[0]) {
                1nat
            } else {
                0nat
            },
            r.2 + if is_unsized_format(s[0]) {
                1nat
            } else {
                0nat
            },
        )
    }
}

/// Whether no two formats of a run are the same (as the clipboard tells them apart).
pub open spec fn distinct_formats(fmts: Seq<u32>) -> bool {
    forall|i: int, j: int|
        0 <= i < fmts.len() && 0 <= j < fmts.len() && i != j ==> #[trigger] (fmts[i] as u16) != #[trigger] (
        fmts[j] as u16)
}

/// Whether the format `c` is offered in the run.
pub open spec fn offers(fmts: Seq<u32>, c: u32) -> bool {
    exists|i: int| 0 <= i < fmts.len() && #[trigger] (fmts[i] as u16) as u32 == c
}

/// Whether the formats already taken by `state` are not offered again.
pub open spec fn taken_not_offered(state: u8, fmts: Seq<u32>) -> bool {
    &&& state & BIT_TEXT != 0 ==> !offers(fmts, CF_TEXT)
    &&& state & BIT_OEMTEXT != 0 ==> !offers(fmts, CF_OEMTEXT)
    &&& state & BIT_UNICODETEXT != 0 ==> !offers(fmts, CF_UNICODETEXT)
    &&& state & BIT_DIB != 0 ==> !offers(fmts, CF_DIB)
    &&& state & BIT_DIBV5 != 0 ==> !offers(fmts, CF_DIBV5)
}

proof fn lemma_filter_groups(state: u8, fmts: Seq<u32>)
    requires
        distinct_formats(fmts),
        taken_not_offered(state, fmts),
    ensures
        group_counts(run_filter(state, fmts)).0 <= (if state & 0x70u8 != 0 {
            0nat
        } else {
            1nat
        }),
        group_counts(run_filter(state, fmts)).1 <= (if state & 0x03u8 != 0 {
            0nat
        } else {
            1nat
        }),
        group_counts(run_filter(state, fmts)).2 == 0,
    decreases fmts.len(),
{
    if fmts.len() > 0 {
        let f = fmts[0];
        let g = f as u16 as u32;
        let (take, next) = filter_step(state, f);
        let tail = fmts.skip(1);
        assert(distinct_formats(tail)) by {
            assert forall|i: int, j: int|
                0 <= i < tail.len() && 0 <= j < tail.len() && i != j implies #[trigger] (tail[i] as u16)
                != #[trigger] (tail[j] as u16) by {
                assert(tail[i] == fmts[i + 1] && tail[j] == fmts[j + 1]);
            }
        }
        assert(!offers(tail, g)) by {
            if offers(tail, g) {
                let i = choose|i: int| 0 <= i < tail.len() && #[trigger] (tail[i] as u16) as u32 == g;
                assert(tail[i] == fmts[i + 1]);
                assert((fmts[i + 1] as u16) != (fmts[0] as u16));
            }
        }
        assert forall|c: u32| offers(tail, c) implies offers(fmts, c) by {
            let i = choose|i: int| 0 <= i < tail.len() && #[trigger] (tail[i] as u16) as u32 == c;
            assert(tail[i] == fmts[i + 1]);
            assert((fmts[i + 1] as u16) as u32 == c);
        }
        let x = state;
        lemma_filter_bits(x);
        assert(taken_not_offered(next, tail));
        lemma_filter_groups(next, tail);
        let rest = run_filter(next, tail);
        let out = run_filter(state, fmts);
        if take {
            assert(out =~= seq![f] + rest);
            assert(out.skip(1) =~= rest);
            assert(out[0] == f);
        } else {
            assert(out =~= rest);
        }
    }
}

/// How the filter's state bits combine.
proof fn lemma_filter_bits(x: u8)
    ensures
        (x | BIT_DIB) & 0x70 == x & 0x70 && (x | BIT_DIBV5) & 0x70 == x & 0x70 && (x | BIT_TEXT) & 0x03 == x & 0x03
            && (x | BIT_OEMTEXT) & 0x03 == x & 0x03 && (x | BIT_UNICODETEXT) & 0x03 == x & 0x03,
        (x | BIT_TEXT) & 0x70 != 0 && (x | BIT_OEMTEXT) & 0x70 != 0 && (x | BIT_UNICODETEXT) & 0x70 != 0 && (x
            | BIT_DIB) & 0x03 != 0 && (x | BIT_DIBV5) & 0x03 != 0,
        forall|b: u8|
            #![auto]
            (b == BIT_TEXT || b == BIT_OEMTEXT || b == BIT_UNICODETEXT || b == BIT_DIB || b == BIT_DIBV5) ==> ((x
                | b) & BIT_TEXT != 0 <==> (x & BIT_TEXT != 0 || b == BIT_TEXT)) && ((x | b) & BIT_OEMTEXT != 0
                <==> (x & BIT_OEMTEXT != 0 || b == BIT_OEMTEXT)) && ((x | b) & BIT_UNICODETEXT != 0 <==> (x
                & BIT_UNICODETEXT != 0 || b == BIT_UNICODETEXT)) && ((x | b) & BIT_DIB != 0 <==> (x & BIT_DIB != 0
                || b == BIT_DIB)) && ((x | b) & BIT_DIBV5 != 0 <==> (x & BIT_DIBV5 != 0 || b == BIT_DIBV5)),
        x & (BIT_OEMTEXT | BIT_UNICODETEXT) == 0 <==> (x & BIT_OEMTEXT == 0 && x & BIT_UNICODETEXT == 0),
        x & (BIT_TEXT | BIT_UNICODETEXT) == 0 <==> (x & BIT_TEXT == 0 && x & BIT_UNICODETEXT == 0),
        x & (BIT_TEXT | BIT_OEMTEXT) == 0 <==> (x & BIT_TEXT == 0 && x & BIT_OEMTEXT == 0),
        x & (BIT_DIB | BIT_DIBV5) == 0 <==> (x & BIT_DIB == 0 && x & BIT_DIBV5 == 0),
        x & 0x70 == 0 <==> (x & BIT_TEXT == 0 && x & BIT_OEMTEXT == 0 && x & BIT_UNICODETEXT == 0),
        x & 0x03 == 0 <==> (x & BIT_DIB == 0 && x & BIT_DIBV5 == 0),
{
    assert(((x | BIT_DIB) & 0x70 == x & 0x70 && (x | BIT_DIBV5) & 0x70 == x & 0x70 && (x | BIT_TEXT) & 0x03 == x
        & 0x03 && (x | BIT_OEMTEXT) & 0x03 == x & 0x03 && (x | BIT_UNICODETEXT) & 0x03 == x & 0x03) && ((x
        | BIT_TEXT) & 0x70 != 0 && (x | BIT_OEMTEXT) & 0x70 != 0 && (x | BIT_UNICODETEXT) & 0x70 != 0 && (x
        | BIT_DIB) & 0x03 != 0 && (x | BIT_DIBV5) & 0x03 != 0) && (forall|b: u8|
        #![auto]
        (b == BIT_TEXT || b == BIT_OEMTEXT || b == BIT_UNICODETEXT || b == BIT_DIB || b == BIT_DIBV5) ==> ((x | b)
            & BIT_TEXT != 0 <==> (x & BIT_TEXT != 0 || b == BIT_TEXT)) && ((x | b) & BIT_OEMTEXT != 0 <==> (x
            & BIT_OEMTEXT != 0 || b == BIT_OEMTEXT)) && ((x | b) & BIT_UNICODETEXT != 0 <==> (x & BIT_UNICODETEXT
            != 0 || b == BIT_UNICODETEXT)) && ((x | b) & BIT_DIB != 0 <==> (x & BIT_DIB != 0 || b == BIT_DIB))
            && ((x | b) & BIT_DIBV5 != 0 <==> (x & BIT_DIBV5 != 0 || b == BIT_DIBV5))) && (x & (BIT_OEMTEXT
        | BIT_UNICODETEXT) == 0 <==> (x & BIT_OEMTEXT == 0 && x & BIT_UNICODETEXT == 0)) && (x & (BIT_TEXT
        | BIT_UNICODETEXT) == 0 <==> (x & BIT_TEXT == 0 && x & BIT_UNICODETEXT == 0)) && (x & (BIT_TEXT
        | BIT_OEMTEXT) == 0 <==> (x & BIT_TEXT == 0 && x & BIT_OEMTEXT == 0)) && (x & (BIT_DIB | BIT_DIBV5) == 0
        <==> (x & BIT_DIB == 0 && x & BIT_DIBV5 == 0)) && (x & 0x70 == 0 <==> (x & BIT_TEXT == 0 && x
        & BIT_OEMTEXT == 0 && x & BIT_UNICODETEXT == 0)) && (x & 0x03 == 0 <==> (x & BIT_DIB == 0 && x & BIT_DIBV5
        == 0))) by (bit_vector);
}

/// Of the formats that the system synthesizes from one another, a copy
/// takes at most one text format and at most one device-independent bitmap,
/// and never a format whose size cannot be taken (the clipboard offers
/// each format once).
pub proof fn law_filter_one_per_group(fmts: Seq<u32>)
    requires
        distinct_formats(fmts),
    ensures
        group_counts(run_filter(0, fmts)).0 <= 1,
        group_counts(run_filter(0, fmts)).1 <= 1,
        group_counts(run_filter(0, fmts)).2 == 0,
{
    let z: u8 = 0;
    assert(z & BIT_TEXT == 0 && z & BIT_OEMTEXT == 0 && z & BIT_UNICODETEXT == 0 && z & BIT_DIB == 0 && z
        & BIT_DIBV5 == 0) by (bit_vector)
        requires
            z == 0,
    ;
    lemma_filter_groups(0, fmts);
}

/// Adds the data of a format to a copy under way; a format without data is left out.
pub fn push_item(items: &mut Vec<ClipItem>, format: u32, data: Vec<u8>)
    requires
        format != 0,
        data@.len() <= u32::MAX,
    ensures
        items_view(final(items)@) == if data@.len() == 0 {
            items_view(old(items)@)
        } else {
            items_view(old(items)@).push((format, data@))
        },
        items_ok(items_view(old(items)@)) ==> items_ok(items_view(final(items)@)),
{
    let ghost d = data@;
    if data.len() != 0 {
        items.push(ClipItem { format, data });
        assert(items_view(items@) =~= items_view(old(items)@).push((format, d)));
    }
}

/// The units of a text up to its first zero unit (all of them where none is zero).
pub open spec fn nul_prefix(units: Seq<u16>) -> Seq<u16>
    decreases units.len(),
{
    if units.len() == 0 || units[0] == 0 {
        Seq::empty()
    } else {
        seq![units[0]] + nul_prefix(units.skip(1))
    }
}

/// The text of the clipboard's UTF-16 data, which a zero unit closes.
pub fn text_of_units(units: &[u16]) -> (r: String)
    ensures
        r@ == utf16_lossy(nul_prefix(units@)),
{
    let mut n: usize = 0;
    proof {
        assert(units@.take(0) =~= Seq::<u16>::empty());
        assert(units@.skip(0) =~= units@);
    }
    while n < units.len() && units[n] != 0
        invariant
            n <= units@.len(),
            nul_prefix(units@) == units@.take(n as int) + nul_prefix(units@.skip(n as int)),
        decreases units@.len() - n,
    {
        proof {
            let rest = units@.skip(n as int);
            assert(rest.skip(1) =~= units@.skip(n + 1));
            assert(units@.take(n as int) + (seq![rest[0]] + nul_prefix(rest.skip(1))) =~= units@.take(n + 1)
                + nul_prefix(units@.skip(n + 1)));
        }
        n = n + 1;
    }
    proof {
        assert(nul_prefix(units@.skip(n as int)) =~= Seq::<u16>::empty());
        assert(units@.take(n as int) + Seq::<u16>::empty() =~= units@.take(n as int));
    }
    let mut v: Vec<u16> = Vec::with_capacity(n);
    let mut i: usize = 0;
    while i < n
        invariant
            i <= n,
            n <= units@.len(),
            v@ == units@.take(i as int),
        decreases n - i,
    {
        v.push(units[i]);
        i = i + 1;
        assert(v@ =~= units@.take(i as int));
    }
    from_utf16_lossy(v.as_slice())
}

/// The clipboard data of a text: its UTF-16 units closed by a zero unit;
/// nothing for an empty text, which only empties the clipboard.
pub fn text_payload(text: &str) -> (r: Option<Vec<u16>>)
    ensures
        match r {
            None => utf16_encode(text@).len() == 0,
            Some(v) => utf16_encode(text@).len() > 0 && v@ == utf16_encode(text@).push(0),
        },
{
    let mut units = encode_utf16(text);
    if units.len() == 0 {
        None
    } else {
        units.push(0);
        Some(units)
    }
}

} // verus!
