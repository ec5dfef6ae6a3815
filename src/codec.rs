use vstd::prelude::*;

verus! {

/// The credential record of a vault: its name and the PHC string of its
/// password hash. The plaintext password is never stored.
pub struct VaultInfo {
    pub name: String,
    pub password: String,
}

/// Decoding failed: the bytes are not a credential record.
#[derive(Debug, PartialEq, Eq, Structural)]
pub enum CodecError {
    CorruptInfoFile,
}

/// A key that a map of the binary format can hold: no NUL character.
pub open spec fn nul_free(k: Seq<char>) -> bool {
    forall|i: int| 0 <= i < k.len() ==> k[i] != '\0'
}

/// The bytes of a map with the two string entries `k1: v1` and `k2: v2`.
pub uninterp spec fn flex_pair_bytes(
    k1: Seq<char>,
    v1: Seq<char>,
    k2: Seq<char>,
    v2: Seq<char>,
) -> Seq<u8>;

/// The string that the map in `bytes` holds under `key`, if `bytes` is a map
/// that holds a string there.
pub uninterp spec fn flex_field(bytes: Seq<u8>, key: Seq<char>) -> Option<Seq<char>>;

/// The little-endian number in the `w` bytes of `b` from `at` on.
pub open spec fn le_at(b: Seq<u8>, at: int, w: nat) -> int
    decreases w,
{
    if w == 0 {
        0
    } else {
        b[at] as int + 256 * le_at(b, at + 1, (w - 1) as nat)
    }
}

pub open spec fn pow256(k: nat) -> int
    decreases k,
{
    if k == 0 {
        1
    } else {
        256 * pow256((k - 1) as nat)
    }
}

proof fn lemma_le_bound(b: Seq<u8>, at: int, w: nat)
    ensures
        0 <= le_at(b, at, w) < pow256(w),
    decreases w,
{
    if w > 0 {
        lemma_le_bound(b, at + 1, (w - 1) as nat);
    }
}

proof fn lemma_pow256_small(k: nat)
    requires
        k <= 8,
    ensures
        pow256(k) <= 0x1_0000_0000_0000_0000,
{
    reveal_with_fuel(pow256, 9);
    assert(k == 0 || k == 1 || k == 2 || k == 3 || k == 4 || k == 5 || k == 6 || k == 7 || k == 8);
}

/// A slot or offset width of the binary format: 1, 2, 4 or 8 bytes.
pub open spec fn width_ok(x: int) -> bool {
    x == 1 || x == 2 || x == 4 || x == 8
}

/// The width that a packed type byte gives in its two low bits.
pub open spec fn byte_width(t: u8) -> int {
    if t % 4 == 0 {
        1
    } else if t % 4 == 1 {
        2
    } else if t % 4 == 2 {
        4
    } else {
        8
    }
}

/// Value slot `i` of the map whose slots start at `a` (width `w`, `l` slots):
/// when its type byte says string, the offset to the string stays within the
/// buffer and the string's length, read before it, ends within the buffer.
pub open spec fn slot_readable(b: Seq<u8>, a: int, w: int, l: int, i: int) -> bool {
    let t = b[a + w * l + i];
    let d = a + w * i;
    let off = le_at(b, d, w as nat);
    let s = d - off;
    let wi = byte_width(t);
    t / 4 == 5 ==> off <= d && (s >= wi ==> s + le_at(b, s - wi, wi as nat) <= b.len())
}

/// Where the root map of `b` keeps its value slots: their start, their width
/// and their number.
pub open spec fn map_slots(b: Seq<u8>) -> (int, int, int) {
    let n = b.len() as int;
    let rw = b[n - 1] as int;
    let w = byte_width(b[n - 2]);
    let r = n - 2 - rw;
    let a = r - le_at(b, r, rw as nat);
    (a, w, le_at(b, a - w, w as nat))
}

/// The root of `b` is a map whose header lies within `b`: the root width and
/// type in the last two bytes, the offset to the map, its keys-vector offset
/// and key width in the three slots before it, its length slot, every key
/// offset, and every value slot and type byte.
pub open spec fn map_header_ok(b: Seq<u8>) -> bool {
    let n = b.len() as int;
    let rw = b[n - 1] as int;
    let tb = b[n - 2];
    let w = byte_width(tb);
    let r = n - 2 - rw;
    let a = r - le_at(b, r, rw as nat);
    let kp = a - 3 * w;
    let kw = le_at(b, a - 2 * w, w as nat);
    let k = kp - le_at(b, kp, w as nat);
    let l = le_at(b, a - w, w as nat);
    &&& n >= 3
    &&& width_ok(rw)
    &&& tb / 4 == 9
    &&& r >= 0
    &&& a >= 0
    &&& a > 3 * w
    &&& width_ok(kw)
    &&& k >= 0
    &&& k + l * kw <= n
    &&& a + w * l + l <= n
}

/// `b` is a buffer in which looking a key of the root map up and taking its
/// string value reads nothing outside `b`: the map's header and, for each
/// value slot, the string it points to.
pub open spec fn flex_map_readable(b: Seq<u8>) -> bool {
    let (a, w, l) = map_slots(b);
    &&& map_header_ok(b)
    &&& forall|i: int| 0 <= i < l ==> #[trigger] slot_readable(b, a, w, l, i)
}

fn read_le(b: &[u8], at: usize, w: usize) -> (v: u128)
    requires
        w <= 8,
        at + w <= b@.len(),
    ensures
        v == le_at(b@, at as int, w as nat),
        v < 0x1_0000_0000_0000_0000,
{
    let n = b.len();
    let mut v: u128 = 0;
    let mut j: usize = w;
    proof {
        lemma_pow256_small(w as nat);
    }
    while j > 0
        invariant
            j <= w <= 8,
            at + w <= n,
            n == b@.len(),
            v == le_at(b@, at + j, (w - j) as nat),
            pow256(w as nat) <= 0x1_0000_0000_0000_0000,
        decreases j,
    {
        proof {
            lemma_le_bound(b@, at + j - 1, (w - j + 1) as nat);
            lemma_le_bound(b@, at as int, w as nat);
            lemma_pow_mono((w - j + 1) as nat, w as nat);
        }
        v = v * 256 + b[at + j - 1] as u128;
        j = j - 1;
    }
    proof {
        lemma_le_bound(b@, at as int, w as nat);
    }
    v
}

proof fn lemma_pow_mono(i: nat, k: nat)
    requires
        i <= k,
    ensures
        pow256(i) <= pow256(k),
    decreases k,
{
    if i < k {
        lemma_pow_mono(i, (k - 1) as nat);
        assert(pow256((k - 1) as nat) >= 1) by {
            lemma_pow_pos((k - 1) as nat);
        }
    }
}

proof fn lemma_pow_pos(k: nat)
    ensures
        pow256(k) >= 1,
    decreases k,
{
    if k > 0 {
        lemma_pow_pos((k - 1) as nat);
    }
}

fn width_of(t: u8) -> (w: usize)
    ensures
        w == byte_width(t),
{
    let bits = t % 4;
    if bits == 0 {
        1
    } else if bits == 1 {
        2
    } else if bits == 2 {
        4
    } else {
        8
    }
}

fn slot_check(b: &[u8], a: usize, w: usize, l: usize, i: usize) -> (r: bool)
    requires
        width_ok(w as int),
        i < l,
        a + w * l + l <= b@.len(),
    ensures
        r == slot_readable(b@, a as int, w as int, l as int, i as int),
{
    let n = b.len();
    proof {
        assert(w * i + w <= w * l && 0 <= w * i && 0 <= w * l) by (nonlinear_arith)
            requires
                i < l,
                w >= 1,
        ;
    }
    let t = b[a + w * l + i];
    if t / 4 != 5 {
        return true;
    }
    let d = a + w * i;
    let off = read_le(b, d, w);
    if off > d as u128 {
        return false;
    }
    let s = d - off as usize;
    let wi = width_of(t);
    if s < wi {
        return true;
    }
    let sl = read_le(b, s - wi, wi);
    (s as u128) + sl <= b.len() as u128
}

/// Whether `b` is a map buffer that the reader can look keys up in and take
/// string values from without reading outside it.
pub fn flex_map_readable_check(b: &[u8]) -> (r: bool)
    ensures
        r == flex_map_readable(b@),
{
    let n = b.len();
    if n < 3 {
        return false;
    }
    let rw = b[n - 1] as usize;
    if !(rw == 1 || rw == 2 || rw == 4 || rw == 8) {
        return false;
    }
    let tb = b[n - 2];
    if tb / 4 != 9 {
        return false;
    }
    let w = width_of(tb);
    if n - 2 < rw {
        return false;
    }
    let r = n - 2 - rw;
    let off = read_le(b, r, rw);
    if off > r as u128 {
        return false;
    }
    let a = r - off as usize;
    if a <= 3 * w {
        return false;
    }
    let kw = read_le(b, a - 2 * w, w);
    if !(kw == 1 || kw == 2 || kw == 4 || kw == 8) {
        return false;
    }
    let kp = a - 3 * w;
    let koff = read_le(b, kp, w);
    if koff > kp as u128 {
        return false;
    }
    let k = kp - koff as usize;
    let l = read_le(b, a - w, w);
    proof {
        assert(l * kw <= l * 8 && (w as u128) * l <= 8 * l) by (nonlinear_arith)
            requires
                kw <= 8,
                w <= 8,
                l >= 0,
        ;
    }
    if (k as u128) + l * kw > n as u128 {
        return false;
    }
    if (a as u128) + (w as u128) * l + l > n as u128 {
        return false;
    }
    let l = l as usize;
    let mut i: usize = 0;
    while i < l
        invariant
            i <= l,
            width_ok(w as int),
            a + w * l + l <= n,
            n == b@.len(),
            map_header_ok(b@),
            map_slots(b@) == (a as int, w as int, l as int),
            forall|j: int| 0 <= j < i ==> #[trigger] slot_readable(b@, a as int, w as int, l as int, j),
        decreases l - i,
    {
        if !slot_check(b, a, w, l, i) {
            proof {
                let slots = map_slots(b@);
                assert(slots.0 == a && slots.1 == w && slots.2 == l);
                assert(!slot_readable(b@, slots.0, slots.1, slots.2, i as int));
            }
            return false;
        }
        i = i + 1;
    }
    true
}

/// A map of two string entries, `k1: v1` and `k2: v2`.
pub struct TwoEntryMap {
    pub k1: Seq<char>,
    pub v1: Seq<char>,
    pub k2: Seq<char>,
    pub v2: Seq<char>,
}

impl TwoEntryMap {
    pub open spec fn bytes(self) -> Seq<u8> {
        flex_pair_bytes(self.k1, self.v1, self.k2, self.v2)
    }

    /// The keys differ and hold no NUL.
    pub open spec fn well_keyed(self) -> bool {
        self.k1 != self.k2 && nul_free(self.k1) && nul_free(self.k2)
    }

    /// `found` is what this map holds under `key`, for each of its two keys.
    pub open spec fn answers(self, key: Seq<char>, found: Option<String>) -> bool {
        &&& key == self.k1 ==> (found matches Some(s) && s@ == self.v1)
        &&& key == self.k2 ==> (found matches Some(s) && s@ == self.v2)
    }
}

/// Relies on flexbuffers' Builder and MapBuilder::push: the buffer of a root
/// map with two string entries, whose offsets, slots and strings the builder
/// writes within the buffer. The keys must differ and hold no NUL, else the
/// builder panics.
#[verifier::external_body]
fn flex_string_pair(k1: &str, v1: &str, k2: &str, v2: &str) -> (r: Vec<u8>)
    requires
        k1@ != k2@,
        nul_free(k1@),
        nul_free(k2@),
    ensures
        r@ == flex_pair_bytes(k1@, v1@, k2@, v2@),
        flex_map_readable(r@),
{
    let mut builder = flexbuffers::Builder::default();
    let mut map = builder.start_map();
    map.push(k1, v1);
    map.push(k2, v2);
    map.end_map();
    builder.take_buffer()
}

/// Relies on flexbuffers' Reader::get_root, get_map, MapReader::index and
/// get_str: the string under `key` in the root map, and on the buffer of a
/// two-entry map, the value that was pushed under that key. These index the
/// buffer without bounds checks, so the buffer must pass
/// [`flex_map_readable_check`] first.
#[verifier::external_body]
fn flex_string_field(bytes: &[u8], key: &str) -> (r: Option<String>)
    requires
        flex_map_readable(bytes@),
    ensures
        r is Some <==> flex_field(bytes@, key@) is Some,
        r matches Some(s) ==> flex_field(bytes@, key@) == Some(s@),
        forall|m: TwoEntryMap|
            #[trigger] m.bytes() == bytes@ && m.well_keyed() ==> m.answers(key@, r),
{
    let root = flexbuffers::Reader::get_root(bytes).ok()?;
    let map = root.get_map().ok()?;
    let value = map.index(key).ok()?.get_str().ok()?;
    Some(value.to_string())
}

/// The encoding of the record with this name and password hash.
pub open spec fn info_record(name: Seq<char>, password: Seq<char>) -> Seq<u8> {
    flex_pair_bytes("name"@, name, "password"@, password)
}

/// The name and password hash that `bytes` hold, if they are a readable
/// record.
pub open spec fn info_fields(bytes: Seq<u8>) -> Option<(Seq<char>, Seq<char>)> {
    if !flex_map_readable(bytes) {
        None
    } else {
        match (flex_field(bytes, "name"@), flex_field(bytes, "password"@)) {
            (Some(n), Some(p)) => Some((n, p)),
            _ => None,
        }
    }
}

proof fn lemma_record_keys()
    ensures
        "name"@ != "password"@,
        nul_free("name"@),
        nul_free("password"@),
{
    reveal_strlit("name");
    reveal_strlit("password");
    assert("name"@.len() != "password"@.len());
}

/// Encodes the record as a self-describing binary map.
pub fn encode_vault_info(info: &VaultInfo) -> (r: Vec<u8>)
    ensures
        r@ == info_record(info.name@, info.password@),
        flex_map_readable(r@),
{
    proof {
        lemma_record_keys();
    }
    flex_string_pair("name", info.name.as_str(), "password", info.password.as_str())
}

/// Decodes a record; bytes that are not a readable record give
/// `CorruptInfoFile`. Decoding what [`encode_vault_info`] produced, which is
/// readable, gives back the same name and password hash.
pub fn decode_vault_info(bytes: &[u8]) -> (r: Result<VaultInfo, CodecError>)
    ensures
        r is Ok <==> info_fields(bytes@) is Some,
        r matches Ok(v) ==> info_fields(bytes@) == Some((v.name@, v.password@)),
        r matches Err(e) ==> e == CodecError::CorruptInfoFile,
        flex_map_readable(bytes@) ==> forall|n: Seq<char>, p: Seq<char>|
            bytes@ == #[trigger] info_record(n, p) ==> (r matches Ok(v) && v.name@ == n
                && v.password@ == p),
{
    proof {
        lemma_record_keys();
    }
    if !flex_map_readable_check(bytes) {
        return Err(CodecError::CorruptInfoFile);
    }
    let name = flex_string_field(bytes, "name");
    let password = flex_string_field(bytes, "password");
    assert forall|n: Seq<char>, p: Seq<char>| bytes@ == #[trigger] info_record(n, p) implies (name matches Some(s) && s@ == n) && (password matches Some(s) && s@ == p) by {
        let m = TwoEntryMap { k1: "name"@, v1: n, k2: "password"@, v2: p };
        assert(m.bytes() == bytes@);
    }
    match (name, password) {
        (Some(name), Some(password)) => Ok(VaultInfo { name, password }),
        _ => Err(CodecError::CorruptInfoFile),
    }
}

} // verus!
