//! Wire format for log groups: a length-prefixed, tag/wire-type based binary
//! encoding. Every encoding function appends to a byte vector and is
//! specified against a single spec-level byte-sequence model, so the byte
//! count written by `encode` always equals the value returned by
//! `encoded_len` for the same input.

use vstd::prelude::*;

verus! {

/// Base-128 continuation encoding of an unsigned integer: low 7 bits per
/// byte, least-significant byte first, high bit set on all but the last byte.
pub open spec fn varint_bytes(v: u64) -> Seq<u8>
    decreases v,
{
    if v < 128 {
        seq![v as u8]
    } else {
        seq![(v % 128 + 128) as u8] + varint_bytes(v / 128)
    }
}

spec fn pow128(k: nat) -> nat
    decreases k,
{
    if k == 0 {
        1
    } else {
        128 * pow128((k - 1) as nat)
    }
}

proof fn lemma_varint_bytes_len_bounded(v: u64, k: nat)
    requires
        1 <= k,
        (v as nat) < pow128(k),
    ensures
        varint_bytes(v).len() <= k,
    decreases k,
{
    if v >= 128 {
        assert(pow128(k) == 128 * pow128((k - 1) as nat));
        lemma_varint_bytes_len_bounded(v / 128, (k - 1) as nat);
    }
}

/// A varint never takes more than 10 bytes for a 64-bit value.
pub proof fn lemma_varint_bytes_len(v: u64)
    ensures
        1 <= varint_bytes(v).len() <= 10,
{
    assert(pow128(0) == 1);
    assert(pow128(1) == 128);
    assert(pow128(2) == 0x4000);
    assert(pow128(3) == 0x20_0000);
    assert(pow128(4) == 0x1000_0000);
    assert(pow128(5) == 0x8_0000_0000);
    assert(pow128(6) == 0x400_0000_0000);
    assert(pow128(7) == 0x2_0000_0000_0000);
    assert(pow128(8) == 0x100_0000_0000_0000);
    assert(pow128(9) == 0x8000_0000_0000_0000);
    assert(pow128(10) == 0x40_0000_0000_0000_0000);
    lemma_varint_bytes_len_bounded(v, 10);
}

/// Append the varint encoding of `value`.
pub fn encode_varint(value: u64, out: &mut Vec<u8>)
    ensures
        final(out)@ == old(out)@ + varint_bytes(value),
{
    let mut v: u64 = value;
    while v >= 128
        invariant
            old(out)@ + varint_bytes(value) == out@ + varint_bytes(v),
        decreases v,
    {
        let ghost prev = out@;
        let ghost v0 = v;
        out.push((v % 128 + 128) as u8);
        v = v / 128;
        proof {
            assert(varint_bytes(v0) == seq![(v0 % 128 + 128) as u8] + varint_bytes(v0 / 128));
            assert(out@ + varint_bytes(v) =~= prev + varint_bytes(v0));
        }
    }
    let ghost prev = out@;
    out.push(v as u8);
    proof {
        assert(out@ =~= prev + varint_bytes(v));
        assert(out@ =~= old(out)@ + varint_bytes(value));
    }
}

/// Largest field number the encoder accepts, so that `8 * tag + wire_type`
/// always fits in 32 bits.
pub const MAX_TAG: u32 = 0x1FFF_FFFF;

/// Wire type for varint fields.
pub const WT_VARINT: u32 = 0;

/// Wire type for length-delimited fields.
pub const WT_LEN: u32 = 2;

/// Wire type for fixed 4-byte fields.
pub const WT_FIXED32: u32 = 5;

/// The field key preceding every field: `(field_number << 3) | wire_type`,
/// itself varint-encoded.
pub open spec fn key_bytes(tag: u32, wire_type: u32) -> Seq<u8> {
    varint_bytes((8 * tag + wire_type) as u64)
}

/// A varint field: key, then the value.
pub open spec fn varint_field(tag: u32, v: u64) -> Seq<u8> {
    key_bytes(tag, WT_VARINT) + varint_bytes(v)
}

/// A length-delimited field: key, byte length as a varint, then the payload.
pub open spec fn len_delimited(tag: u32, payload: Seq<u8>) -> Seq<u8> {
    key_bytes(tag, WT_LEN) + varint_bytes(payload.len() as u64) + payload
}

/// The UTF-8 bytes of a string value.
pub open spec fn str_bytes(s: Seq<char>) -> Seq<u8> {
    vstd::utf8::encode_utf8(s)
}

/// A string field is its UTF-8 bytes, length-delimited.
pub open spec fn str_field(tag: u32, s: Seq<char>) -> Seq<u8> {
    len_delimited(tag, str_bytes(s))
}

/// The four little-endian bytes of a 32-bit value.
pub open spec fn le32_bytes(v: u32) -> Seq<u8> {
    seq![
        (v % 256) as u8,
        ((v / 256) % 256) as u8,
        ((v / 65536) % 256) as u8,
        ((v / 16777216) % 256) as u8,
    ]
}

/// A fixed 4-byte field: key, then the value in little-endian order.
pub open spec fn fixed32_field(tag: u32, v: u32) -> Seq<u8> {
    key_bytes(tag, WT_FIXED32) + le32_bytes(v)
}

/// Append a field key.
pub fn encode_key(tag: u32, wire_type: u32, out: &mut Vec<u8>)
    requires
        tag <= MAX_TAG,
        wire_type <= 7,
    ensures
        final(out)@ == old(out)@ + key_bytes(tag, wire_type),
{
    encode_varint(8 * (tag as u64) + (wire_type as u64), out);
}

/// Append a varint field.
pub fn encode_varint_field(tag: u32, value: u64, out: &mut Vec<u8>)
    requires
        tag <= MAX_TAG,
    ensures
        final(out)@ == old(out)@ + varint_field(tag, value),
{
    encode_key(tag, WT_VARINT, out);
    encode_varint(value, out);
    proof {
        assert(out@ =~= old(out)@ + varint_field(tag, value));
    }
}

/// Append a fixed 4-byte field, little-endian.
pub fn encode_fixed32(tag: u32, value: u32, out: &mut Vec<u8>)
    requires
        tag <= MAX_TAG,
    ensures
        final(out)@ == old(out)@ + fixed32_field(tag, value),
{
    encode_key(tag, WT_FIXED32, out);
    out.push((value % 256) as u8);
    out.push(((value / 256) % 256) as u8);
    out.push(((value / 65536) % 256) as u8);
    out.push(((value / 16777216) % 256) as u8);
    proof {
        assert(out@ =~= old(out)@ + fixed32_field(tag, value));
    }
}

/// Append a string field.
pub fn encode_str(tag: u32, value: &str, out: &mut Vec<u8>)
    requires
        tag <= MAX_TAG,
        str_bytes(value@).len() <= usize::MAX,
    ensures
        final(out)@ == old(out)@ + str_field(tag, value@),
{
    encode_key(tag, WT_LEN, out);
    encode_varint(value.len() as u64, out);
    out.extend_from_slice(value.as_bytes());
    proof {
        assert(out@ =~= old(out)@ + str_field(tag, value@));
    }
}

/// Number of bytes a field key takes. The length of a varint depends only on
/// its high bits, so the wire type does not matter; this uses wire type 0.
pub fn key_len(tag: u32) -> (r: usize)
    requires
        tag <= MAX_TAG,
    ensures
        r == key_bytes(tag, WT_VARINT).len(),
{
    encoded_len_varint(8 * (tag as u64))
}

/// Number of bytes `encode_varint_field` writes.
pub fn encoded_varint_field_len(tag: u32, value: u64) -> (r: usize)
    requires
        tag <= MAX_TAG,
    ensures
        r == varint_field(tag, value).len(),
{
    proof {
        lemma_varint_bytes_len((8 * (tag as u64)) as u64);
        lemma_varint_bytes_len(value);
    }
    key_len(tag) + encoded_len_varint(value)
}

/// The length of a field key does not depend on the wire type: adding the
/// low three bits never changes how many base-128 digits the key takes.
pub proof fn lemma_key_bytes_len_wt(tag: u32, wt: u32)
    requires
        tag <= MAX_TAG,
        wt <= 7,
    ensures
        key_bytes(tag, wt).len() == key_bytes(tag, WT_VARINT).len(),
{
    let t = tag as u64;
    let w = wt as u64;
    assert(((8 * t + w) / 128 == (8 * t) / 128) && ((8 * t + w < 128) <==> (8 * t < 128)))
        by (bit_vector)
        requires
            t <= 0x1FFF_FFFFu64 && w <= 7u64,
    ;
    let v1 = (8 * t + w) as u64;
    let v0 = (8 * t) as u64;
    if v1 >= 128 {
        assert(varint_bytes(v1).len() == 1 + varint_bytes(v1 / 128).len());
        assert(varint_bytes(v0).len() == 1 + varint_bytes(v0 / 128).len());
    }
}

/// Number of bytes `encode_fixed32` writes, for any value.
pub fn encoded_fixed32_len(tag: u32) -> (r: usize)
    requires
        tag <= MAX_TAG,
    ensures
        r == key_bytes(tag, WT_FIXED32).len() + 4,
{
    proof {
        lemma_varint_bytes_len((8 * (tag as u64)) as u64);
        lemma_key_bytes_len_wt(tag, WT_FIXED32);
    }
    key_len(tag) + 4
}

/// Number of bytes `encode_str` writes.
pub fn encoded_str_len(tag: u32, value: &str) -> (r: usize)
    requires
        tag <= MAX_TAG,
        str_field(tag, value@).len() <= usize::MAX,
    ensures
        r == str_field(tag, value@).len(),
{
    let kl = encoded_len_varint(8 * (tag as u64) + 2);
    let ll = encoded_len_varint(value.len() as u64);
    kl + ll + value.len()
}

/// Number of bytes `encode_varint` writes for `value`, computed without
/// allocating.
pub fn encoded_len_varint(value: u64) -> (r: usize)
    ensures
        r == varint_bytes(value).len(),
{
    proof {
        lemma_varint_bytes_len(value);
    }
    let mut v: u64 = value;
    let mut n: usize = 1;
    while v >= 128
        invariant
            1 <= n <= 10,
            n - 1 + varint_bytes(v).len() == varint_bytes(value).len(),
            varint_bytes(value).len() <= 10,
        decreases v,
    {
        proof {
            lemma_varint_bytes_len(v / 128);
        }
        v = v / 128;
        n = n + 1;
    }
    n
}

/// A message that can be written to the wire and whose encoded length can be
/// computed exactly, without encoding.
pub trait Message: Sized {
    /// The exact bytes this message encodes to.
    spec fn wire(&self) -> Seq<u8>;

    /// Append the wire encoding of this message.
    fn encode(&self, out: &mut Vec<u8>)
        requires
            self.wire().len() <= usize::MAX,
        ensures
            final(out)@ == old(out)@ + self.wire(),
    ;

    /// The number of bytes `encode` appends, computed without allocating.
    fn encoded_len(&self) -> (r: usize)
        requires
            self.wire().len() <= usize::MAX,
        ensures
            r == self.wire().len(),
    ;
}

/// The wire bytes of a repeated message field: each message length-delimited
/// under the same field number, in order.
pub open spec fn repeated_wire<M: Message>(tag: u32, msgs: Seq<M>) -> Seq<u8>
    decreases msgs.len(),
{
    if msgs.len() == 0 {
        Seq::empty()
    } else {
        len_delimited(tag, msgs[0].wire()) + repeated_wire(tag, msgs.drop_first())
    }
}

/// Appending one message to a repeated field appends its length-delimited
/// encoding to the field's wire bytes.
pub proof fn lemma_repeated_wire_push<M: Message>(tag: u32, msgs: Seq<M>, x: M)
    ensures
        repeated_wire(tag, msgs.push(x)) == repeated_wire(tag, msgs) + len_delimited(
            tag,
            x.wire(),
        ),
    decreases msgs.len(),
{
    if msgs.len() == 0 {
        assert(msgs.push(x).drop_first() =~= Seq::<M>::empty());
        assert(msgs.push(x)[0] == x);
        assert(repeated_wire(tag, msgs.push(x)) == len_delimited(tag, x.wire()) + repeated_wire(
            tag,
            msgs.push(x).drop_first(),
        ));
        assert(repeated_wire(tag, msgs.push(x).drop_first()) == Seq::<u8>::empty());
        assert(repeated_wire(tag, msgs) == Seq::<u8>::empty());
        assert(repeated_wire(tag, msgs.push(x)) =~= repeated_wire(tag, msgs) + len_delimited(
            tag,
            x.wire(),
        ));
    } else {
        assert(msgs.push(x).drop_first() =~= msgs.drop_first().push(x));
        lemma_repeated_wire_push(tag, msgs.drop_first(), x);
        assert(repeated_wire(tag, msgs.push(x)) =~= repeated_wire(tag, msgs) + len_delimited(
            tag,
            x.wire(),
        ));
    }
}

/// One more element of the prefix adds that element's encoding.
pub proof fn lemma_repeated_wire_take_step<M: Message>(tag: u32, msgs: Seq<M>, i: int)
    requires
        0 <= i < msgs.len(),
    ensures
        repeated_wire(tag, msgs.take(i + 1)) == repeated_wire(tag, msgs.take(i)) + len_delimited(
            tag,
            msgs[i].wire(),
        ),
{
    assert(msgs.take(i + 1) =~= msgs.take(i).push(msgs[i]));
    lemma_repeated_wire_push(tag, msgs.take(i), msgs[i]);
}

/// The wire bytes of a prefix never exceed the wire bytes of the whole field.
pub proof fn lemma_repeated_wire_take_le<M: Message>(tag: u32, msgs: Seq<M>, i: int)
    requires
        0 <= i <= msgs.len(),
    ensures
        repeated_wire(tag, msgs.take(i)).len() <= repeated_wire(tag, msgs).len(),
    decreases msgs.len() - i,
{
    if i == msgs.len() {
        assert(msgs.take(i) =~= msgs);
    } else {
        lemma_repeated_wire_take_step(tag, msgs, i);
        lemma_repeated_wire_take_le(tag, msgs, i + 1);
    }
}

/// Append one message as a length-delimited field.
pub fn encode_message<M: Message>(tag: u32, msg: &M, out: &mut Vec<u8>)
    requires
        tag <= MAX_TAG,
        msg.wire().len() <= usize::MAX,
    ensures
        final(out)@ == old(out)@ + len_delimited(tag, msg.wire()),
{
    encode_key(tag, WT_LEN, out);
    let n = msg.encoded_len();
    encode_varint(n as u64, out);
    msg.encode(out);
    proof {
        assert(out@ =~= old(out)@ + len_delimited(tag, msg.wire()));
    }
}

/// Append a repeated message field.
pub fn encode_repeated<M: Message>(tag: u32, messages: &[M], out: &mut Vec<u8>)
    requires
        tag <= MAX_TAG,
        repeated_wire(tag, messages@).len() <= usize::MAX,
    ensures
        final(out)@ == old(out)@ + repeated_wire(tag, messages@),
{
    let ghost all = messages@;
    let mut i: usize = 0;
    while i < messages.len()
        invariant
            i <= all.len(),
            messages@ == all,
            tag <= MAX_TAG,
            repeated_wire(tag, all).len() <= usize::MAX,
            out@ == old(out)@ + repeated_wire(tag, all.take(i as int)),
        decreases all.len() - i,
    {
        proof {
            lemma_repeated_wire_take_step(tag, all, i as int);
            lemma_repeated_wire_take_le(tag, all, i + 1);
        }
        encode_message(tag, &messages[i], out);
        i = i + 1;
        proof {
            assert(out@ =~= old(out)@ + repeated_wire(tag, all.take(i as int)));
        }
    }
    proof {
        assert(all.take(all.len() as int) =~= all);
    }
}

/// Number of bytes `encode_repeated` writes, computed without allocating.
pub fn encoded_len_repeated<M: Message>(tag: u32, messages: &[M]) -> (r: usize)
    requires
        tag <= MAX_TAG,
        repeated_wire(tag, messages@).len() <= usize::MAX,
    ensures
        r == repeated_wire(tag, messages@).len(),
{
    let ghost all = messages@;
    let kl = encoded_len_varint((8 * (tag as u64) + 2) as u64);
    let mut n: usize = 0;
    let mut i: usize = 0;
    while i < messages.len()
        invariant
            i <= all.len(),
            messages@ == all,
            tag <= MAX_TAG,
            repeated_wire(tag, all).len() <= usize::MAX,
            kl == key_bytes(tag, WT_LEN).len(),
            n == repeated_wire(tag, all.take(i as int)).len(),
        decreases all.len() - i,
    {
        proof {
            lemma_repeated_wire_take_step(tag, all, i as int);
            lemma_repeated_wire_take_le(tag, all, i + 1);
            lemma_varint_bytes_len(repeated_wire(tag, all.take(i as int + 1)).len() as u64);
        }
        let el = messages[i].encoded_len();
        let ll = encoded_len_varint(el as u64);
        n = n + kl + ll + el;
        i = i + 1;
    }
    proof {
        assert(all.take(all.len() as int) =~= all);
    }
    n
}

/// Mathematical model of one key/value pair: its key and value as character
/// sequences.
#[verifier::ext_equal]
pub struct KeyValueV {
    pub key: Seq<char>,
    pub value: Seq<char>,
}

/// One key/value pair of log content or group tags.
#[derive(Debug, Clone, PartialEq, Eq, Hash)]
pub struct KeyValue {
    pub key: String,
    pub value: String,
}

impl View for KeyValue {
    type V = KeyValueV;

    open spec fn view(&self) -> KeyValueV {
        KeyValueV { key: self.key@, value: self.value@ }
    }
}

impl DeepView for KeyValue {
    type V = KeyValueV;

    open spec fn deep_view(&self) -> KeyValueV {
        self@
    }
}

impl KeyValue {
    /// Create a pair from borrowed strings.
    pub fn new(key: &str, value: &str) -> (r: KeyValue)
        ensures
            r@ == (KeyValueV { key: key@, value: value@ }),
    {
        KeyValue { key: key.to_owned(), value: value.to_owned() }
    }
}

/// The wire bytes of a key/value message: key as field 1, value as field 2,
/// both strings.
pub open spec fn kv_wire(kv: KeyValueV) -> Seq<u8> {
    str_field(1, kv.key) + str_field(2, kv.value)
}

impl Message for KeyValue {
    open spec fn wire(&self) -> Seq<u8> {
        kv_wire(self@)
    }

    fn encode(&self, out: &mut Vec<u8>) {
        encode_str(1, self.key.as_str(), out);
        encode_str(2, self.value.as_str(), out);
        proof {
            assert(out@ =~= old(out)@ + self.wire());
        }
    }

    fn encoded_len(&self) -> (r: usize) {
        encoded_str_len(1, self.key.as_str()) + encoded_str_len(2, self.value.as_str())
    }
}

/// First position whose key equals `key`, or `-1` if the key is absent.
pub open spec fn kv_index_of(s: Seq<KeyValueV>, key: Seq<char>) -> int
    decreases s.len(),
{
    if s.len() == 0 {
        -1
    } else if s[0].key == key {
        0
    } else if kv_index_of(s.drop_first(), key) < 0 {
        -1
    } else {
        1 + kv_index_of(s.drop_first(), key)
    }
}

/// Whether the sequence holds `key`.
pub open spec fn kv_has_key(s: Seq<KeyValueV>, key: Seq<char>) -> bool {
    kv_index_of(s, key) >= 0
}

/// Map-style insertion: an existing key is overwritten in place, a new key is
/// appended at the end.
pub open spec fn kv_insert(s: Seq<KeyValueV>, key: Seq<char>, value: Seq<char>) -> Seq<KeyValueV> {
    if kv_has_key(s, key) {
        s.update(kv_index_of(s, key), KeyValueV { key, value })
    } else {
        s.push(KeyValueV { key, value })
    }
}

/// Map-style insertion bounded by a capacity: a pair with a new key is
/// refused once `cap` pairs are held.
pub open spec fn kv_bounded_insert(
    s: Seq<KeyValueV>,
    cap: nat,
    key: Seq<char>,
    value: Seq<char>,
) -> Seq<KeyValueV> {
    if kv_has_key(s, key) || s.len() < cap {
        kv_insert(s, key, value)
    } else {
        s
    }
}

/// Map-style removal: the pair with `key` is removed, if present.
pub open spec fn kv_remove(s: Seq<KeyValueV>, key: Seq<char>) -> Seq<KeyValueV> {
    if kv_has_key(s, key) {
        s.remove(kv_index_of(s, key))
    } else {
        s
    }
}

/// No two pairs share a key.
pub open spec fn kv_keys_unique(s: Seq<KeyValueV>) -> bool {
    forall|i: int, j: int| 0 <= i < j < s.len() ==> s[i].key != s[j].key
}

/// If a key occurs at `i` and nowhere before, `kv_index_of` finds `i`.
pub proof fn lemma_kv_index_of_first(s: Seq<KeyValueV>, key: Seq<char>, i: int)
    requires
        0 <= i < s.len(),
        s[i].key == key,
        forall|j: int| 0 <= j < i ==> s[j].key != key,
    ensures
        kv_index_of(s, key) == i,
    decreases i,
{
    if i > 0 {
        assert(forall|j: int| 0 <= j < i - 1 ==> s.drop_first()[j].key != key);
        lemma_kv_index_of_first(s.drop_first(), key, i - 1);
    }
}

/// `kv_index_of` returns either a position holding the key, or `-1` when no
/// position holds it.
pub proof fn lemma_kv_index_of_props(s: Seq<KeyValueV>, key: Seq<char>)
    ensures
        kv_index_of(s, key) >= 0 ==> kv_index_of(s, key) < s.len() && s[kv_index_of(s, key)].key
            == key,
        kv_index_of(s, key) < 0 ==> forall|i: int| 0 <= i < s.len() ==> s[i].key != key,
    decreases s.len(),
{
    if s.len() > 0 {
        lemma_kv_index_of_props(s.drop_first(), key);
        assert(forall|i: int| 1 <= i < s.len() ==> s[i] == s.drop_first()[i - 1]);
    }
}

/// Map-style insertion keeps keys unique.
pub proof fn lemma_kv_insert_unique(s: Seq<KeyValueV>, key: Seq<char>, value: Seq<char>)
    requires
        kv_keys_unique(s),
    ensures
        kv_keys_unique(kv_insert(s, key, value)),
{
    lemma_kv_index_of_props(s, key);
}

/// Map-style removal keeps keys unique.
pub proof fn lemma_kv_remove_unique(s: Seq<KeyValueV>, key: Seq<char>)
    requires
        kv_keys_unique(s),
    ensures
        kv_keys_unique(kv_remove(s, key)),
{
    lemma_kv_index_of_props(s, key);
}

/// Find the position of `key` among the pairs, if present.
fn find_kv(items: &Vec<KeyValue>, key: &String) -> (r: Option<usize>)
    ensures
        match r {
            Some(i) => 0 <= i < items@.len() && i == kv_index_of(items.deep_view(), key@),
            None => !kv_has_key(items.deep_view(), key@),
        },
{
    let ghost vs = items.deep_view();
    let mut i: usize = 0;
    while i < items.len()
        invariant
            i <= vs.len(),
            vs == items.deep_view(),
            vs.len() == items@.len(),
            forall|j: int| 0 <= j < i ==> vs[j].key != key@,
        decreases vs.len() - i,
    {
        if items[i].key == *key {
            proof {
                lemma_kv_index_of_first(vs, key@, i as int);
            }
            return Some(i);
        }
        i = i + 1;
    }
    proof {
        lemma_kv_index_of_props(vs, key@);
    }
    None
}

/// Default bound on the number of key/value pairs one record or one group's
/// tag set will hold.
pub const DEFAULT_PAIR_CAPACITY: usize = 8;

/// Mathematical model of a log record: its timestamp, optional subsecond
/// part, and contents in insertion order.
#[verifier::ext_equal]
pub struct LogV {
    pub timestamp: u32,
    pub subsec_nanosecond: u32,
    pub has_subsec: bool,
    pub contents: Seq<KeyValueV>,
}

/// One log record: a timestamp in seconds since the epoch, an optional
/// subsecond part, and key/value contents with unique keys kept in insertion
/// order, bounded by a capacity fixed at construction.
#[derive(Debug, Clone, PartialEq, Eq)]
pub struct Log {
    timestamp: u32,
    subsec_nanosecond: Option<u32>,
    contents: Vec<KeyValue>,
    cap: usize,
}

impl View for Log {
    type V = LogV;

    closed spec fn view(&self) -> LogV {
        LogV {
            timestamp: self.timestamp,
            subsec_nanosecond: self.subsec_nanosecond.unwrap_or(0),
            has_subsec: self.subsec_nanosecond is Some,
            contents: self.contents.deep_view(),
        }
    }
}

impl Log {
    /// The bound on this record's number of content pairs.
    pub closed spec fn capacity(&self) -> nat {
        self.cap as nat
    }

    /// No two content pairs share a key.
    pub open spec fn wf(&self) -> bool {
        kv_keys_unique(self@.contents)
    }

    /// Create a record with the given timestamp, no contents, and the
    /// default content capacity.
    pub fn new(timestamp: u32, subsec_nanosecond: Option<u32>) -> (r: Log)
        ensures
            r@.timestamp == timestamp,
            r@.has_subsec == (subsec_nanosecond is Some),
            r@.subsec_nanosecond == subsec_nanosecond.unwrap_or(0),
            r@.contents == Seq::<KeyValueV>::empty(),
            r.capacity() == DEFAULT_PAIR_CAPACITY,
            r.wf(),
    {
        Log::with_pair_capacity(timestamp, subsec_nanosecond, DEFAULT_PAIR_CAPACITY)
    }

    /// Create a record with a chosen bound on its number of content pairs.
    pub fn with_pair_capacity(timestamp: u32, subsec_nanosecond: Option<u32>, cap: usize) -> (r:
        Log)
        ensures
            r@.timestamp == timestamp,
            r@.has_subsec == (subsec_nanosecond is Some),
            r@.subsec_nanosecond == subsec_nanosecond.unwrap_or(0),
            r@.contents == Seq::<KeyValueV>::empty(),
            r.capacity() == cap,
            r.wf(),
    {
        let r = Log { timestamp, subsec_nanosecond, contents: Vec::new(), cap };
        proof {
            assert(r@.contents =~= Seq::<KeyValueV>::empty());
        }
        r
    }

    /// The record's timestamp, in seconds since the epoch.
    pub fn timestamp(&self) -> (r: u32)
        ensures
            r == self@.timestamp,
    {
        self.timestamp
    }

    /// The record's subsecond part, if set.
    pub fn subsec_nanosecond(&self) -> (r: &Option<u32>)
        ensures
            *r is Some <==> self@.has_subsec,
            r matches Some(n) ==> n == self@.subsec_nanosecond,
    {
        &self.subsec_nanosecond
    }

    /// The record's content pairs, in insertion order.
    pub fn contents(&self) -> (r: &Vec<KeyValue>)
        ensures
            r.deep_view() == self@.contents,
    {
        &self.contents
    }

    /// Create a record stamped with the current wall-clock time, no
    /// contents, and the default content capacity.
    pub fn now() -> (r: Log)
        ensures
            r@.has_subsec,
            r@.contents == Seq::<KeyValueV>::empty(),
            r.capacity() == DEFAULT_PAIR_CAPACITY,
            r.wf(),
    {
        let (secs, nanos) = crate::time::unix_now();
        Log::new(#[verifier::truncate] (secs as u32), Some(nanos))
    }

    /// Replace the timestamp.
    pub fn with_timestamp(self, timestamp: u32) -> (r: Log)
        ensures
            r@ == (LogV { timestamp, ..self@ }),
            r.capacity() == self.capacity(),
            r.wf() == self.wf(),
    {
        Log { timestamp, ..self }
    }

    /// Set the subsecond part.
    pub fn with_subsec_nanosecond(self, subsec_nanosecond: u32) -> (r: Log)
        ensures
            r@ == (LogV { subsec_nanosecond, has_subsec: true, ..self@ }),
            r.capacity() == self.capacity(),
            r.wf() == self.wf(),
    {
        Log { subsec_nanosecond: Some(subsec_nanosecond), ..self }
    }

    /// Replace the timestamp in place.
    pub fn modify_timestamp(&mut self, timestamp: u32)
        ensures
            final(self)@ == (LogV { timestamp, ..old(self)@ }),
            final(self).capacity() == old(self).capacity(),
            final(self).wf() == old(self).wf(),
    {
        self.timestamp = timestamp;
    }

    /// Set the subsecond part in place.
    pub fn modify_subsec_nanosecond(&mut self, subsec_nanosecond: u32)
        ensures
            final(self)@ == (LogV { subsec_nanosecond, has_subsec: true, ..old(self)@ }),
            final(self).capacity() == old(self).capacity(),
            final(self).wf() == old(self).wf(),
    {
        self.subsec_nanosecond = Some(subsec_nanosecond);
    }

    /// Insert a content pair. An existing key is overwritten in place; a new
    /// key is appended, unless the record already holds `capacity` pairs, in
    /// which case the rejected pair is handed back.
    pub fn try_insert(&mut self, key: String, value: String) -> (r: Result<(), (String, String)>)
        ensures
            final(self)@.timestamp == old(self)@.timestamp,
            final(self)@.subsec_nanosecond == old(self)@.subsec_nanosecond,
            final(self)@.has_subsec == old(self)@.has_subsec,
            final(self).capacity() == old(self).capacity(),
            kv_has_key(old(self)@.contents, key@) || old(self)@.contents.len() < old(
                self,
            ).capacity() ==> r is Ok && final(self)@.contents == kv_insert(
                old(self)@.contents,
                key@,
                value@,
            ),
            !(kv_has_key(old(self)@.contents, key@) || old(self)@.contents.len() < old(
                self,
            ).capacity()) ==> r == Err::<(), (String, String)>((key, value)) && final(self)@ == old(
                self,
            )@,
            old(self).wf() ==> final(self).wf(),
    {
        let ghost olds = self.contents.deep_view();
        proof {
            if kv_keys_unique(olds) {
                lemma_kv_insert_unique(olds, key@, value@);
            }
        }
        match find_kv(&self.contents, &key) {
            Some(i) => {
                self.contents[i] = KeyValue { key, value };
                proof {
                    assert(self.contents.deep_view() =~= kv_insert(olds, key@, value@));
                }
                Ok(())
            },
            None => {
                if self.contents.len() < self.cap {
                    self.contents.push(KeyValue { key, value });
                    proof {
                        assert(self.contents.deep_view() =~= kv_insert(olds, key@, value@));
                    }
                    Ok(())
                } else {
                    Err((key, value))
                }
            },
        }
    }

    /// Best-effort insertion: a pair refused for capacity is dropped.
    pub fn insert(&mut self, key: &str, value: &str)
        ensures
            final(self)@.timestamp == old(self)@.timestamp,
            final(self)@.subsec_nanosecond == old(self)@.subsec_nanosecond,
            final(self)@.has_subsec == old(self)@.has_subsec,
            final(self).capacity() == old(self).capacity(),
            final(self)@.contents == kv_bounded_insert(
                old(self)@.contents,
                old(self).capacity(),
                key@,
                value@,
            ),
            old(self).wf() ==> final(self).wf(),
    {
        let _unused = self.try_insert(key.to_owned(), value.to_owned());
    }

    /// Builder-style best-effort insertion.
    pub fn with(self, key: &str, value: &str) -> (r: Log)
        ensures
            r@.timestamp == self@.timestamp,
            r@.subsec_nanosecond == self@.subsec_nanosecond,
            r@.has_subsec == self@.has_subsec,
            r.capacity() == self.capacity(),
            r@.contents == kv_bounded_insert(self@.contents, self.capacity(), key@, value@),
            self.wf() ==> r.wf(),
    {
        let mut r = self;
        r.insert(key, value);
        r
    }

    /// Remove the content pair with `key`, if present.
    pub fn remove(&mut self, key: &str)
        ensures
            final(self)@.timestamp == old(self)@.timestamp,
            final(self)@.subsec_nanosecond == old(self)@.subsec_nanosecond,
            final(self)@.has_subsec == old(self)@.has_subsec,
            final(self).capacity() == old(self).capacity(),
            final(self)@.contents == kv_remove(old(self)@.contents, key@),
            old(self).wf() ==> final(self).wf(),
    {
        let ghost olds = self.contents.deep_view();
        proof {
            if kv_keys_unique(olds) {
                lemma_kv_remove_unique(olds, key@);
            }
        }
        let owned = key.to_owned();
        match find_kv(&self.contents, &owned) {
            Some(i) => {
                let _removed = self.contents.remove(i);
                proof {
                    assert(self.contents.deep_view() =~= kv_remove(olds, key@));
                }
            },
            None => {
            },
        }
    }
}

/// The optional fixed 4-byte subsecond field of a record.
pub open spec fn opt_fixed32_field(tag: u32, has: bool, v: u32) -> Seq<u8> {
    if has {
        fixed32_field(tag, v)
    } else {
        Seq::empty()
    }
}

impl Message for Log {
    /// Timestamp as field 1 (varint), contents as field 2 (repeated
    /// key/value messages), subsecond part as field 4 (fixed 4 bytes, only
    /// when set).
    closed spec fn wire(&self) -> Seq<u8> {
        varint_field(1, self.timestamp as u64) + repeated_wire(2, self.contents@)
            + opt_fixed32_field(4, self.subsec_nanosecond is Some, self.subsec_nanosecond.unwrap_or(0))
    }

    fn encode(&self, out: &mut Vec<u8>) {
        encode_varint_field(1, self.timestamp as u64, out);
        encode_repeated(2, self.contents.as_slice(), out);
        match self.subsec_nanosecond {
            Some(v) => encode_fixed32(4, v, out),
            None => {
            },
        }
        proof {
            assert(out@ =~= old(out)@ + self.wire());
        }
    }

    fn encoded_len(&self) -> (r: usize) {
        let a = encoded_varint_field_len(1, self.timestamp as u64);
        let b = encoded_len_repeated(2, self.contents.as_slice());
        let c = match self.subsec_nanosecond {
            Some(_) => encoded_fixed32_len(4),
            None => 0,
        };
        a + b + c
    }
}

impl Default for Log {
    /// A record stamped with the current wall-clock time and no contents.
    fn default() -> (r: Log)
        ensures
            r@.has_subsec,
            r@.contents == Seq::<KeyValueV>::empty(),
            r.capacity() == DEFAULT_PAIR_CAPACITY,
            r.wf(),
    {
        Log::now()
    }
}

/// Mathematical model of group metadata: optional topic and source, and tags
/// in insertion order. Two metadata values name the same group exactly when
/// their models are equal.
#[verifier::ext_equal]
pub struct MetaV {
    pub topic: Option<Seq<char>>,
    pub source: Option<Seq<char>>,
    pub log_tags: Seq<KeyValueV>,
}

/// Metadata shared by the records of one log group: an optional topic, an
/// optional source, and key/value tags with unique keys, bounded by a
/// capacity fixed at construction. Used both as wire content and as the
/// grouping key for batching.
#[derive(Debug, Clone, PartialEq, Eq)]
pub struct LogGroupMetadata {
    topic: Option<String>,
    source: Option<String>,
    log_tags: Vec<KeyValue>,
    cap: usize,
}

impl View for LogGroupMetadata {
    type V = MetaV;

    closed spec fn view(&self) -> MetaV {
        MetaV {
            topic: self.topic.deep_view(),
            source: self.source.deep_view(),
            log_tags: self.log_tags.deep_view(),
        }
    }
}

impl LogGroupMetadata {
    /// The bound on this metadata's number of tag pairs.
    pub closed spec fn capacity(&self) -> nat {
        self.cap as nat
    }

    /// No two tag pairs share a key.
    pub open spec fn wf(&self) -> bool {
        kv_keys_unique(self@.log_tags)
    }

    /// Create empty metadata with the default tag capacity.
    pub fn new() -> (r: LogGroupMetadata)
        ensures
            r@ == (MetaV {
                topic: None,
                source: None,
                log_tags: Seq::<KeyValueV>::empty(),
            }),
            r.capacity() == DEFAULT_PAIR_CAPACITY,
            r.wf(),
    {
        LogGroupMetadata::with_tag_capacity(DEFAULT_PAIR_CAPACITY)
    }

    /// Create empty metadata with a chosen bound on its number of tag pairs.
    pub fn with_tag_capacity(cap: usize) -> (r: LogGroupMetadata)
        ensures
            r@ == (MetaV {
                topic: None,
                source: None,
                log_tags: Seq::<KeyValueV>::empty(),
            }),
            r.capacity() == cap,
            r.wf(),
    {
        let r = LogGroupMetadata { topic: None, source: None, log_tags: Vec::new(), cap };
        proof {
            assert(r@ =~= (MetaV {
                topic: None,
                source: None,
                log_tags: Seq::<KeyValueV>::empty(),
            }));
        }
        r
    }

    /// Set the topic.
    pub fn with_topic(self, topic: &str) -> (r: LogGroupMetadata)
        ensures
            r@ == (MetaV { topic: Some(topic@), ..self@ }),
            r.capacity() == self.capacity(),
            r.wf() == self.wf(),
    {
        let r = LogGroupMetadata { topic: Some(topic.to_owned()), ..self };
        proof {
            assert(r@ =~= (MetaV { topic: Some(topic@), ..self@ }));
        }
        r
    }

    /// Set the source.
    pub fn with_source(self, source: &str) -> (r: LogGroupMetadata)
        ensures
            r@ == (MetaV { source: Some(source@), ..self@ }),
            r.capacity() == self.capacity(),
            r.wf() == self.wf(),
    {
        let r = LogGroupMetadata { source: Some(source.to_owned()), ..self };
        proof {
            assert(r@ =~= (MetaV { source: Some(source@), ..self@ }));
        }
        r
    }

    /// The metadata's topic, if set.
    pub fn topic(&self) -> (r: &Option<String>)
        ensures
            r.deep_view() == self@.topic,
    {
        &self.topic
    }

    /// The metadata's source, if set.
    pub fn source(&self) -> (r: &Option<String>)
        ensures
            r.deep_view() == self@.source,
    {
        &self.source
    }

    /// The metadata's tag pairs, in insertion order.
    pub fn log_tags(&self) -> (r: &Vec<KeyValue>)
        ensures
            r.deep_view() == self@.log_tags,
    {
        &self.log_tags
    }

    /// Add a tag pair. An existing key is overwritten in place; a new key is
    /// appended, unless the metadata already holds `capacity` pairs, in
    /// which case the rejected pair is handed back.
    pub fn try_add_tag(&mut self, key: String, value: String) -> (r: Result<
        (),
        (String, String),
    >)
        ensures
            final(self)@.topic == old(self)@.topic,
            final(self)@.source == old(self)@.source,
            final(self).capacity() == old(self).capacity(),
            kv_has_key(old(self)@.log_tags, key@) || old(self)@.log_tags.len() < old(
                self,
            ).capacity() ==> r is Ok && final(self)@.log_tags == kv_insert(
                old(self)@.log_tags,
                key@,
                value@,
            ),
            !(kv_has_key(old(self)@.log_tags, key@) || old(self)@.log_tags.len() < old(
                self,
            ).capacity()) ==> r == Err::<(), (String, String)>((key, value)) && final(self)@ == old(
                self,
            )@,
            old(self).wf() ==> final(self).wf(),
    {
        let ghost olds = self.log_tags.deep_view();
        proof {
            if kv_keys_unique(olds) {
                lemma_kv_insert_unique(olds, key@, value@);
            }
        }
        match find_kv(&self.log_tags, &key) {
            Some(i) => {
                self.log_tags[i] = KeyValue { key, value };
                proof {
                    assert(self.log_tags.deep_view() =~= kv_insert(olds, key@, value@));
                }
                Ok(())
            },
            None => {
                if self.log_tags.len() < self.cap {
                    self.log_tags.push(KeyValue { key, value });
                    proof {
                        assert(self.log_tags.deep_view() =~= kv_insert(olds, key@, value@));
                    }
                    Ok(())
                } else {
                    Err((key, value))
                }
            },
        }
    }

    /// Best-effort tag insertion: a pair refused for capacity is dropped.
    pub fn add_tag(&mut self, key: &str, value: &str)
        ensures
            final(self)@.topic == old(self)@.topic,
            final(self)@.source == old(self)@.source,
            final(self).capacity() == old(self).capacity(),
            final(self)@.log_tags == kv_bounded_insert(
                old(self)@.log_tags,
                old(self).capacity(),
                key@,
                value@,
            ),
            old(self).wf() ==> final(self).wf(),
    {
        let _unused = self.try_add_tag(key.to_owned(), value.to_owned());
    }

    /// Builder-style best-effort tag insertion.
    pub fn with_tag(self, key: &str, value: &str) -> (r: LogGroupMetadata)
        ensures
            r@.topic == self@.topic,
            r@.source == self@.source,
            r.capacity() == self.capacity(),
            r@.log_tags == kv_bounded_insert(self@.log_tags, self.capacity(), key@, value@),
            self.wf() ==> r.wf(),
    {
        let mut r = self;
        r.add_tag(key, value);
        r
    }

    /// Remove the tag pair with `key`, if present.
    pub fn remove_tag(&mut self, key: &str)
        ensures
            final(self)@.topic == old(self)@.topic,
            final(self)@.source == old(self)@.source,
            final(self).capacity() == old(self).capacity(),
            final(self)@.log_tags == kv_remove(old(self)@.log_tags, key@),
            old(self).wf() ==> final(self).wf(),
    {
        let ghost olds = self.log_tags.deep_view();
        proof {
            if kv_keys_unique(olds) {
                lemma_kv_remove_unique(olds, key@);
            }
        }
        let owned = key.to_owned();
        match find_kv(&self.log_tags, &owned) {
            Some(i) => {
                let _removed = self.log_tags.remove(i);
                proof {
                    assert(self.log_tags.deep_view() =~= kv_remove(olds, key@));
                }
            },
            None => {
            },
        }
    }
}

/// Compare two metadata values structurally: equal topic, source, and tags.
pub fn metadata_eq(a: &LogGroupMetadata, b: &LogGroupMetadata) -> (r: bool)
    ensures
        r == (a@ == b@),
{
    let topic_eq = match (&a.topic, &b.topic) {
        (None, None) => true,
        (Some(x), Some(y)) => *x == *y,
        _ => false,
    };
    let source_eq = match (&a.source, &b.source) {
        (None, None) => true,
        (Some(x), Some(y)) => *x == *y,
        _ => false,
    };
    if !(topic_eq && source_eq) {
        proof {
            assert(a@ != b@);
        }
        return false;
    }
    if a.log_tags.len() != b.log_tags.len() {
        proof {
            assert(a@.log_tags.len() != b@.log_tags.len());
        }
        return false;
    }
    let n = a.log_tags.len();
    let mut i: usize = 0;
    while i < n
        invariant
            i <= n,
            n == a.log_tags@.len(),
            n == b.log_tags@.len(),
            forall|j: int| 0 <= j < i ==> a.log_tags.deep_view()[j] == b.log_tags.deep_view()[j],
        decreases n - i,
    {
        let ka = &a.log_tags[i];
        let kb = &b.log_tags[i];
        if !(ka.key == kb.key && ka.value == kb.value) {
            proof {
                assert(a.log_tags.deep_view()[i as int] != b.log_tags.deep_view()[i as int]);
            }
            return false;
        }
        proof {
            assert(a.log_tags.deep_view()[i as int] =~= b.log_tags.deep_view()[i as int]);
        }
        i = i + 1;
    }
    proof {
        assert(a.log_tags.deep_view() =~= b.log_tags.deep_view());
        assert(a@ =~= b@);
    }
    true
}

/// The wire bytes of a repeated key/value field, over the mathematical model
/// of the pairs.
pub open spec fn kvs_wire(tag: u32, kvs: Seq<KeyValueV>) -> Seq<u8>
    decreases kvs.len(),
{
    if kvs.len() == 0 {
        Seq::empty()
    } else {
        len_delimited(tag, kv_wire(kvs[0])) + kvs_wire(tag, kvs.drop_first())
    }
}

/// A repeated key/value field has the same wire bytes whether computed over
/// the pairs or over their models.
pub proof fn lemma_repeated_wire_is_kvs(tag: u32, s: Seq<KeyValue>)
    ensures
        repeated_wire(tag, s) == kvs_wire(tag, Seq::new(s.len(), |i: int| s[i].deep_view())),
    decreases s.len(),
{
    let vs = Seq::new(s.len(), |i: int| s[i].deep_view());
    if s.len() > 0 {
        lemma_repeated_wire_is_kvs(tag, s.drop_first());
        let dv = Seq::new(s.drop_first().len(), |i: int| s.drop_first()[i].deep_view());
        assert(dv =~= vs.drop_first());
        assert(s[0].wire() == kv_wire(vs[0]));
    }
}

/// An optional string field: present or absent.
pub open spec fn opt_str_field(tag: u32, s: Option<Seq<char>>) -> Seq<u8> {
    match s {
        Some(v) => str_field(tag, v),
        None => Seq::empty(),
    }
}

/// The wire bytes of one log group: its records as field 1, topic as field
/// 3, source as field 4, and tags as field 6.
pub open spec fn log_group_wire(m: MetaV, logs: Seq<Log>) -> Seq<u8> {
    repeated_wire(1, logs) + opt_str_field(3, m.topic) + opt_str_field(4, m.source) + kvs_wire(
        6,
        m.log_tags,
    )
}

/// Append the wire encoding of a log group.
pub fn encode_log_group(metadata: &LogGroupMetadata, logs: &[Log], out: &mut Vec<u8>)
    requires
        log_group_wire(metadata@, logs@).len() <= usize::MAX,
    ensures
        final(out)@ == old(out)@ + log_group_wire(metadata@, logs@),
{
    proof {
        lemma_repeated_wire_is_kvs(6, metadata.log_tags@);
        assert(Seq::new(metadata.log_tags@.len(), |i: int| metadata.log_tags@[i].deep_view())
            =~= metadata@.log_tags);
    }
    encode_repeated(1, logs, out);
    match &metadata.topic {
        Some(t) => encode_str(3, t.as_str(), out),
        None => {
        },
    }
    match &metadata.source {
        Some(s) => encode_str(4, s.as_str(), out),
        None => {
        },
    }
    encode_repeated(6, metadata.log_tags.as_slice(), out);
    proof {
        assert(out@ =~= old(out)@ + log_group_wire(metadata@, logs@));
    }
}

/// Number of bytes `encode_log_group` writes, computed without allocating.
pub fn calc_log_group_encoded_len(metadata: &LogGroupMetadata, logs: &[Log]) -> (r: usize)
    requires
        log_group_wire(metadata@, logs@).len() <= usize::MAX,
    ensures
        r == log_group_wire(metadata@, logs@).len(),
{
    proof {
        lemma_repeated_wire_is_kvs(6, metadata.log_tags@);
        assert(Seq::new(metadata.log_tags@.len(), |i: int| metadata.log_tags@[i].deep_view())
            =~= metadata@.log_tags);
    }
    let a = encoded_len_repeated(1, logs);
    let b = match &metadata.topic {
        Some(t) => encoded_str_len(3, t.as_str()),
        None => 0,
    };
    let c = match &metadata.source {
        Some(s) => encoded_str_len(4, s.as_str()),
        None => 0,
    };
    let d = encoded_len_repeated(6, metadata.log_tags.as_slice());
    a + b + c + d
}

/// One complete log group message, as sent on the wire: records, reserved
/// field, topic, source, and tags.
#[derive(Debug, Clone, PartialEq, Eq)]
pub struct LogGroup {
    pub logs: Vec<Log>,
    pub reserved: Option<String>,
    pub topic: Option<String>,
    pub source: Option<String>,
    pub log_tags: Vec<KeyValue>,
}

impl Message for LogGroup {
    /// Records as field 1, reserved as field 2, topic as field 3, source as
    /// field 4, tags as field 6.
    open spec fn wire(&self) -> Seq<u8> {
        repeated_wire(1, self.logs@) + opt_str_field(2, self.reserved.deep_view()) + opt_str_field(
            3,
            self.topic.deep_view(),
        ) + opt_str_field(4, self.source.deep_view()) + repeated_wire(6, self.log_tags@)
    }

    fn encode(&self, out: &mut Vec<u8>) {
        encode_repeated(1, self.logs.as_slice(), out);
        match &self.reserved {
            Some(v) => encode_str(2, v.as_str(), out),
            None => {
            },
        }
        match &self.topic {
            Some(v) => encode_str(3, v.as_str(), out),
            None => {
            },
        }
        match &self.source {
            Some(v) => encode_str(4, v.as_str(), out),
            None => {
            },
        }
        encode_repeated(6, self.log_tags.as_slice(), out);
        proof {
            assert(out@ =~= old(out)@ + self.wire());
        }
    }

    fn encoded_len(&self) -> (r: usize) {
        let a = encoded_len_repeated(1, self.logs.as_slice());
        let b = match &self.reserved {
            Some(v) => encoded_str_len(2, v.as_str()),
            None => 0,
        };
        let c = match &self.topic {
            Some(v) => encoded_str_len(3, v.as_str()),
            None => 0,
        };
        let d = match &self.source {
            Some(v) => encoded_str_len(4, v.as_str()),
            None => 0,
        };
        let e = encoded_len_repeated(6, self.log_tags.as_slice());
        a + b + c + d + e
    }
}

impl LogGroup {
    /// The encoded size of a group holding these records and tags, with no
    /// reserved field, topic, or source.
    pub fn estimate_size(logs: &[Log], tags: &[KeyValue]) -> (r: usize)
        requires
            repeated_wire(1u32, logs@).len() + repeated_wire(6u32, tags@).len() <= usize::MAX,
        ensures
            r == repeated_wire(1u32, logs@).len() + repeated_wire(6u32, tags@).len(),
    {
        encoded_len_repeated(1, logs) + encoded_len_repeated(6, tags)
    }
}

} // verus!
