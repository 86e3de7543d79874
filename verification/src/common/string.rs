//! The wide-string codec: owned, zero-terminated UTF-16 buffers of the shape
//! the host reads, with a verified encoder and a verified lossy decoder.

use vstd::prelude::*;

verus! {

/// One unit in the surrogate range reserved for the high half of a pair.
pub open spec fn is_high_surrogate(u: u16) -> bool {
    0xD800 <= u && u < 0xDC00
}

/// One unit in the surrogate range reserved for the low half of a pair.
pub open spec fn is_low_surrogate(u: u16) -> bool {
    0xDC00 <= u && u < 0xE000
}

/// The UTF-16 units of a single scalar value: one unit below 0x10000,
/// otherwise a surrogate pair.
pub open spec fn units_of_char(c: char) -> Seq<u16> {
    let v = c as int;
    if v < 0x10000 {
        seq![c as u16]
    } else {
        seq![
            (0xD800 + (v - 0x10000) / 0x400) as u16,
            (0xDC00 + (v - 0x10000) % 0x400) as u16,
        ]
    }
}

/// UTF-16 encoding of a whole character sequence, without a terminator.
pub open spec fn encode_seq(s: Seq<char>) -> Seq<u16>
    decreases s.len(),
{
    if s.len() == 0 {
        Seq::empty()
    } else {
        units_of_char(s[0]) + encode_seq(s.subrange(1, s.len() as int))
    }
}

/// The character a lone, well-formed unit decodes to.
pub open spec fn char_of_unit(u: u16) -> char {
    u as char
}

/// The scalar value a surrogate pair decodes to.
pub open spec fn combined(hi: u16, lo: u16) -> int {
    0x10000 + (hi - 0xD800) * 0x400 + (lo - 0xDC00)
}

/// The substitute emitted for a malformed (unpaired surrogate) unit.
pub open spec fn replacement_char() -> char {
    '\u{FFFD}'
}

/// Lossy UTF-16 decoding: well-formed units and pairs decode exactly, and an
/// unpaired surrogate becomes the replacement character. Total on all inputs.
pub open spec fn decode_seq(us: Seq<u16>) -> Seq<char>
    decreases us.len(),
{
    if us.len() == 0 {
        Seq::empty()
    } else {
        let u = us[0];
        if !is_high_surrogate(u) && !is_low_surrogate(u) {
            seq![char_of_unit(u)] + decode_seq(us.subrange(1, us.len() as int))
        } else if is_high_surrogate(u) && us.len() >= 2 && is_low_surrogate(us[1]) {
            seq![combined(u, us[1]) as char] + decode_seq(us.subrange(2, us.len() as int))
        } else {
            seq![replacement_char()] + decode_seq(us.subrange(1, us.len() as int))
        }
    }
}

/// The units before the first zero: what a reader of a zero-terminated buffer
/// sees as the content.
pub open spec fn prefix_to_nul(us: Seq<u16>) -> Seq<u16>
    decreases us.len(),
{
    if us.len() == 0 {
        us
    } else if us[0] == 0 {
        Seq::empty()
    } else {
        seq![us[0]] + prefix_to_nul(us.subrange(1, us.len() as int))
    }
}

/// What the encoder writes for one character of the text: the zero scalar
/// is replaced, so the terminator stays the buffer's only zero; every other
/// character goes through unchanged.
pub open spec fn sanitize_char(c: char) -> char {
    if c as int == 0 {
        replacement_char()
    } else {
        c
    }
}

/// The text as the encoder writes it.
pub open spec fn sanitize(s: Seq<char>) -> Seq<char> {
    Seq::new(s.len(), |i: int| sanitize_char(s[i]))
}

/// The buffer the encoder writes for a text: the UTF-16 units of the
/// written text and the terminator, which is the buffer's only zero.
pub open spec fn wide_of(s: Seq<char>) -> Seq<u16> {
    encode_seq(sanitize(s)) + seq![0u16]
}

/// True when some character of `s` is the zero scalar; written as it is,
/// such a character would stand in the buffer as a terminator and cut the
/// content short, so the encoder replaces it.
pub open spec fn has_nul_char(s: Seq<char>) -> bool {
    exists|i: int| 0 <= i < s.len() && s[i] as int == 0
}

/// An owned, zero-terminated UTF-16 buffer. The host is only ever lent the
/// buffer for reading; the `WideString` keeps it alive.
pub struct WideString {
    units: Vec<u16>,
}

impl View for WideString {
    type V = Seq<u16>;

    closed spec fn view(&self) -> Seq<u16> {
        self.units@
    }
}

impl WideString {
    /// A buffer is well formed when it carries its terminator.
    pub open spec fn wf(&self) -> bool {
        self@.len() >= 1 && self@[self@.len() - 1] == 0
    }

    /// The content a reader of the buffer sees.
    pub open spec fn content(&self) -> Seq<u16> {
        prefix_to_nul(self@)
    }

    /// An empty wide string: just the terminator.
    pub fn new() -> (r: WideString)
        ensures
            r@ == seq![0u16],
            r.wf(),
    {
        let mut units: Vec<u16> = Vec::new();
        units.push(0u16);
        assert(units@ =~= seq![0u16]);
        WideString { units }
    }

    /// Encodes text into a fresh zero-terminated buffer. Always succeeds on
    /// every text: a zero scalar inside the text is replaced on the way in,
    /// so the terminator is the buffer's only zero and a reader sees the
    /// whole written text.
    pub fn from_str(s: &str) -> (r: WideString)
        ensures
            r@ == wide_of(s@),
            r.wf(),
            r.content() == encode_seq(sanitize(s@)),
    {
        let n: usize = s.unicode_len();
        let mut units: Vec<u16> = Vec::new();
        let mut i: usize = 0;
        proof {
            assert(units@ =~= encode_seq(sanitize(s@).subrange(0, 0)));
        }
        while i < n
            invariant
                n == s@.len(),
                i <= n,
                units@ == encode_seq(sanitize(s@).subrange(0, i as int)),
            decreases n - i,
        {
            let read = s.get_char(i);
            let c = if (read as u32) == 0 {
                '\u{FFFD}'
            } else {
                read
            };
            assert(c == sanitize(s@)[i as int]);
            push_units_of_char(&mut units, c);
            proof {
                lemma_encode_seq_snoc(sanitize(s@), i as int);
            }
            i = i + 1;
        }
        assert(sanitize(s@).subrange(0, n as int) =~= sanitize(s@));
        units.push(0u16);
        assert(units@ =~= encode_seq(sanitize(s@)) + seq![0u16]);
        proof {
            lemma_sanitize_no_nul(s@);
            lemma_encode_no_nul_unit(sanitize(s@));
            lemma_prefix_of_nul_terminated(encode_seq(sanitize(s@)));
        }
        WideString { units }
    }
}

impl WideString {
    /// Takes a buffer as a host handed it over: the content is what stands
    /// before the first zero, and a terminator is guaranteed behind it.
    pub fn from_units(v: Vec<u16>) -> (r: WideString)
        ensures
            r@ == prefix_to_nul(v@) + seq![0u16],
            r.wf(),
            r.content() == prefix_to_nul(v@),
    {
        let n = v.len();
        let mut units: Vec<u16> = Vec::new();
        let mut i: usize = 0;
        while i < n && v[i] != 0
            invariant
                n == v@.len(),
                i <= n,
                forall|j: int| 0 <= j < i as int ==> v@[j] != 0,
                units@ == v@.subrange(0, i as int),
            decreases n - i,
        {
            units.push(v[i]);
            assert(units@ =~= v@.subrange(0, i as int + 1));
            i = i + 1;
        }
        proof {
            lemma_prefix_to_nul_shape(v@, i as int);
        }
        units.push(0u16);
        assert(units@ =~= prefix_to_nul(v@) + seq![0u16]);
        proof {
            lemma_prefix_of_nul_terminated(v@.subrange(0, i as int));
        }
        WideString { units }
    }

    /// A fresh buffer with the same units: what handing the host one more
    /// pointer to the same content costs in this model.
    pub fn duplicate(&self) -> (r: WideString)
        ensures
            r@ == self@,
    {
        let n = self.units.len();
        let mut units: Vec<u16> = Vec::new();
        let mut i: usize = 0;
        while i < n
            invariant
                n == self@.len(),
                i <= n,
                units@ == self@.subrange(0, i as int),
            decreases n - i,
        {
            units.push(self.units[i]);
            assert(units@ =~= self@.subrange(0, i as int + 1));
            i = i + 1;
        }
        assert(units@ =~= self@);
        WideString { units }
    }

    /// The buffer the host reads, terminator included; valid exactly as long
    /// as this `WideString` is alive.
    pub fn as_ptr(&self) -> (r: &Vec<u16>)
        ensures
            r@ == self@,
    {
        &self.units
    }

    /// Decodes the content back to text, replacing every unpaired surrogate;
    /// total and loss-free on buffers the encoder wrote.
    pub fn to_string_lossy(&self) -> (r: String)
        ensures
            r@ == decode_seq(self.content()),
    {
        let n = self.units.len();
        let mut end: usize = 0;
        while end < n && self.units[end] != 0
            invariant
                n == self@.len(),
                end <= n,
                forall|j: int| 0 <= j < end as int ==> self@[j] != 0,
            decreases n - end,
        {
            end = end + 1;
        }
        proof {
            lemma_prefix_to_nul_shape(self@, end as int);
        }
        decode_units_range(&self.units, end)
    }
}

/// Decodes a borrowed unit buffer a host pointer leads to, reading up to its
/// first zero, with the same lossy treatment of unpaired surrogates as
/// `WideString::to_string_lossy`. The buffer is host memory already copied
/// out; nothing of it is retained.
pub fn decode_borrowed(units: &Vec<u16>) -> (r: String)
    ensures
        r@ == decode_seq(prefix_to_nul(units@)),
{
    let n = units.len();
    let mut end: usize = 0;
    while end < n && units[end] != 0
        invariant
            n == units@.len(),
            end <= n,
            forall|j: int| 0 <= j < end as int ==> units@[j] != 0,
        decreases n - end,
    {
        end = end + 1;
    }
    proof {
        lemma_prefix_to_nul_shape(units@, end as int);
    }
    decode_units_range(units, end)
}

/// Decodes the units before `end`, which hold no zero terminator.
fn decode_units_range(units: &Vec<u16>, end: usize) -> (r: String)
    requires
        end <= units@.len(),
    ensures
        r@ == decode_seq(units@.subrange(0, end as int)),
{
    let trimmed_len: usize = end;
    let mut out = String::new();
    let mut i: usize = 0;
    while i < trimmed_len
        invariant
            trimmed_len == end <= units@.len(),
            i <= trimmed_len,
            decode_seq(units@.subrange(0, end as int)) == out@ + decode_seq(
                units@.subrange(i as int, end as int),
            ),
        decreases trimmed_len - i,
    {
        let ghost pending = units@.subrange(i as int, end as int);
        let ghost out_prev = out@;
        let u = units[i];
        assert(pending[0] == u);
        if u < 0xD800 || u >= 0xE000 {
            let c = match char_from_u32(u as u32) {
                Some(c) => c,
                None => {
                    proof {
                        assert(false);
                    }
                    '\u{FFFD}'
                },
            };
            assert(c == char_of_unit(u));
            push_char(&mut out, c);
            proof {
                let next = units@.subrange(i as int + 1, end as int);
                assert(pending.subrange(1, pending.len() as int) =~= next);
                assert(decode_seq(pending) == seq![c] + decode_seq(next));
                assert(out@ =~= out_prev + seq![c]);
                assert((out_prev + seq![c]) + decode_seq(next) =~= out_prev + (seq![c]
                    + decode_seq(next)));
            }
            i = i + 1;
        } else if u < 0xDC00 && i + 1 < trimmed_len && 0xDC00 <= units[i + 1] && units[i + 1]
            < 0xE000 {
            let lo = units[i + 1];
            assert(pending[1] == lo);
            let v: u32 = 0x10000u32 + ((u as u32) - 0xD800u32) * 0x400u32 + ((lo as u32)
                - 0xDC00u32);
            assert(v as int == combined(u, lo));
            let c = match char_from_u32(v) {
                Some(c) => c,
                None => {
                    proof {
                        assert(false);
                    }
                    '\u{FFFD}'
                },
            };
            push_char(&mut out, c);
            proof {
                let next = units@.subrange(i as int + 2, end as int);
                assert(pending.subrange(2, pending.len() as int) =~= next);
                assert(decode_seq(pending) == seq![c] + decode_seq(next));
                assert(out@ =~= out_prev + seq![c]);
                assert((out_prev + seq![c]) + decode_seq(next) =~= out_prev + (seq![c]
                    + decode_seq(next)));
            }
            i = i + 2;
        } else {
            let c = '\u{FFFD}';
            push_char(&mut out, c);
            proof {
                let next = units@.subrange(i as int + 1, end as int);
                assert(pending.subrange(1, pending.len() as int) =~= next);
                assert(decode_seq(pending) == seq![c] + decode_seq(next));
                assert(out@ =~= out_prev + seq![c]);
                assert((out_prev + seq![c]) + decode_seq(next) =~= out_prev + (seq![c]
                    + decode_seq(next)));
            }
            i = i + 1;
        }
    }
    assert(units@.subrange(end as int, end as int) =~= Seq::<u16>::empty());
    assert(out@ =~= out@ + decode_seq(units@.subrange(end as int, end as int)));
    out
}

/// Relies on char::from_u32 of std: it returns the character for every valid
/// Unicode scalar value and None for surrogates and values above 0x10FFFF.
#[verifier::external_body]
fn char_from_u32(v: u32) -> (r: Option<char>)
    ensures
        (v < 0xD800 || (0xE000 <= v && v <= 0x10FFFF)) ==> r == Some(v as char),
        !(v < 0xD800 || (0xE000 <= v && v <= 0x10FFFF)) ==> r is None,
{
    char::from_u32(v)
}

/// Relies on String::push of std: it appends the given character to the end
/// of the string.
#[verifier::external_body]
pub(crate) fn push_char(s: &mut String, c: char)
    ensures
        final(s)@ == old(s)@.push(c),
{
    s.push(c)
}

/// Where the first `k` units are nonzero and a zero (or the end) follows,
/// the prefix before the terminator is exactly those `k` units.
proof fn lemma_prefix_to_nul_shape(us: Seq<u16>, k: int)
    requires
        0 <= k <= us.len(),
        forall|j: int| 0 <= j < k ==> us[j] != 0,
        k < us.len() ==> us[k] == 0,
    ensures
        prefix_to_nul(us) == us.subrange(0, k),
    decreases us.len(),
{
    if us.len() == 0 {
        assert(us.subrange(0, 0) =~= us);
    } else if us[0] == 0 {
        assert(k == 0);
        assert(us.subrange(0, 0) =~= Seq::<u16>::empty());
    } else {
        let t = us.subrange(1, us.len() as int);
        lemma_prefix_to_nul_shape(t, k - 1);
        assert(t.subrange(0, k - 1) =~= us.subrange(1, k));
        assert(seq![us[0]] + us.subrange(1, k) =~= us.subrange(0, k));
    }
}

/// A zero-free sequence with a terminator behind it reads back unchanged.
proof fn lemma_prefix_of_nul_terminated(us: Seq<u16>)
    requires
        forall|j: int| 0 <= j < us.len() ==> us[j] != 0,
    ensures
        prefix_to_nul(us + seq![0u16]) == us,
    decreases us.len(),
{
    let whole = us + seq![0u16];
    if us.len() == 0 {
        assert(whole[0] == 0);
    } else {
        let t = us.subrange(1, us.len() as int);
        lemma_prefix_of_nul_terminated(t);
        assert(whole.subrange(1, whole.len() as int) =~= t + seq![0u16]);
        assert(seq![whole[0]] + t =~= us);
    }
}

/// An owned array of wide strings together with the list of buffers the host
/// iterates: the model of a `*const *const` argument. The buffers live
/// exactly as long as the array.
pub struct WideStringArray {
    buf: Vec<WideString>,
}

impl View for WideStringArray {
    type V = Seq<Seq<u16>>;

    closed spec fn view(&self) -> Seq<Seq<u16>> {
        Seq::new(self.buf@.len(), |i: int| self.buf@[i]@)
    }
}

impl WideStringArray {
    /// Every buffer in the array carries its terminator.
    pub open spec fn wf(&self) -> bool {
        forall|i: int|
            0 <= i < self@.len() ==> (#[trigger] self@[i]).len() >= 1 && self@[i][self@[i].len()
                - 1] == 0
    }

    /// An empty array.
    pub fn new() -> (r: WideStringArray)
        ensures
            r@ == Seq::<Seq<u16>>::empty(),
            r.wf(),
    {
        let r = WideStringArray { buf: Vec::new() };
        assert(r@ =~= Seq::<Seq<u16>>::empty());
        r
    }

    /// The buffers the host reads, valid exactly as long as the array lives.
    pub fn as_ptr(&self) -> (r: &Vec<WideString>)
        ensures
            r@.len() == self@.len(),
            forall|i: int| 0 <= i < self@.len() ==> (#[trigger] r@[i])@ == self@[i],
    {
        &self.buf
    }

    /// How many buffers the host may read.
    pub fn len(&self) -> (r: usize)
        ensures
            r == self@.len(),
    {
        self.buf.len()
    }

    /// Wraps already-encoded buffers.
    pub fn from_wide(v: Vec<WideString>) -> (r: WideStringArray)
        ensures
            r@.len() == v@.len(),
            forall|i: int| 0 <= i < v@.len() ==> r@[i] == (#[trigger] v@[i])@,
    {
        let r = WideStringArray { buf: v };
        r
    }

    /// Encodes each text into its own zero-terminated buffer.
    pub fn from_strings(v: &Vec<String>) -> (r: WideStringArray)
        ensures
            r@.len() == v@.len(),
            forall|i: int|
                0 <= i < v@.len() ==> r@[i] == wide_of((#[trigger] v@[i])@),
            r.wf(),
    {
        let mut buf: Vec<WideString> = Vec::new();
        let n = v.len();
        let mut i: usize = 0;
        while i < n
            invariant
                n == v@.len(),
                i <= n,
                buf@.len() == i as int,
                forall|j: int|
                    0 <= j < i as int ==> (#[trigger] buf@[j])@ == wide_of(v@[j]@),
            decreases n - i,
        {
            let w = WideString::from_str(v[i].as_str());
            buf.push(w);
            i = i + 1;
        }
        WideStringArray { buf }
    }
}

/// Duplicates an optional buffer, `None` standing for a null pointer.
pub fn duplicate_opt(v: &Option<WideString>) -> (r: Option<WideString>)
    ensures
        (v is Some) == (r is Some),
        v matches Some(w) ==> (r matches Some(x) && x@ == w@),
{
    match v {
        Some(w) => Some(w.duplicate()),
        None => None,
    }
}

/// Decoding greedily consumes the units of one character: putting the units
/// of `c` in front of any tail decodes to `c` followed by the decoded tail.
proof fn lemma_decode_units_prepend(c: char, rest: Seq<u16>)
    ensures
        decode_seq(units_of_char(c) + rest) == seq![c] + decode_seq(rest),
{
    let v = c as int;
    let us = units_of_char(c) + rest;
    if v < 0x10000 {
        let u = (c as u16);
        assert(u as int == v);
        assert(us[0] == u);
        assert(!is_high_surrogate(u) && !is_low_surrogate(u));
        assert(us.subrange(1, us.len() as int) =~= rest);
        assert(char_of_unit(u) == c);
        assert(decode_seq(us) == seq![c] + decode_seq(rest));
    } else {
        let hi = (0xD800 + (v - 0x10000) / 0x400) as u16;
        let lo = (0xDC00 + (v - 0x10000) % 0x400) as u16;
        vstd::arithmetic::div_mod::lemma_fundamental_div_mod(v - 0x10000, 0x400);
        assert(0 <= (v - 0x10000) % 0x400 < 0x400) by {
            vstd::arithmetic::div_mod::lemma_mod_bound(v - 0x10000, 0x400);
        };
        assert(0 <= (v - 0x10000) / 0x400 <= 0x3FF);
        assert(hi as int == 0xD800 + (v - 0x10000) / 0x400);
        assert(lo as int == 0xDC00 + (v - 0x10000) % 0x400);
        assert(is_high_surrogate(hi));
        assert(is_low_surrogate(lo));
        assert(us[0] == hi && us[1] == lo);
        assert(us.subrange(2, us.len() as int) =~= rest);
        assert(combined(hi, lo) == v);
        assert((combined(hi, lo) as char) == c);
        assert(decode_seq(us) == seq![c] + decode_seq(rest));
    }
}

/// Decoding inverts encoding exactly, for every character sequence.
pub proof fn lemma_decode_encode(s: Seq<char>)
    ensures
        decode_seq(encode_seq(s)) == s,
    decreases s.len(),
{
    if s.len() == 0 {
        assert(decode_seq(encode_seq(s)) =~= s);
    } else {
        let rest = s.subrange(1, s.len() as int);
        lemma_decode_encode(rest);
        lemma_decode_units_prepend(s[0], encode_seq(rest));
        assert(seq![s[0]] + rest =~= s);
    }
}

/// No unit of a nonzero character is zero: a single unit carries the
/// character's own nonzero value, and surrogate units sit at 0xD800 or above.
proof fn lemma_units_of_char_nonzero(c: char)
    requires
        c as int != 0,
    ensures
        forall|j: int| 0 <= j < units_of_char(c).len() ==> units_of_char(c)[j] != 0,
{
    let units = units_of_char(c);
    let v = c as int;
    if v < 0x10000 {
        assert(0 <= v < 0x10000);
        assert(units[0] == c as u16);
        assert((c as u16) as int == v);
    } else {
        vstd::arithmetic::div_mod::lemma_fundamental_div_mod(v - 0x10000, 0x400);
        vstd::arithmetic::div_mod::lemma_mod_bound(v - 0x10000, 0x400);
        assert(0 <= (v - 0x10000) / 0x400 <= 0x3FF);
        assert(units[0] as int == 0xD800 + (v - 0x10000) / 0x400);
        assert(units[1] as int == 0xDC00 + (v - 0x10000) % 0x400);
    }
}

/// A text without the zero scalar encodes with no zero unit, so the
/// terminator written behind it is the first zero of the buffer.
proof fn lemma_encode_no_nul_unit(s: Seq<char>)
    requires
        !has_nul_char(s),
    ensures
        forall|j: int| 0 <= j < encode_seq(s).len() ==> encode_seq(s)[j] != 0,
    decreases s.len(),
{
    if s.len() != 0 {
        let rest = s.subrange(1, s.len() as int);
        assert(!has_nul_char(rest)) by {
            assert(forall|i: int| 0 <= i < rest.len() ==> rest[i] == s[i + 1]);
        };
        lemma_encode_no_nul_unit(rest);
        let c = s[0];
        assert(c as int != 0);
        let units = units_of_char(c);
        lemma_units_of_char_nonzero(c);
        assert(forall|j: int|
            0 <= j < encode_seq(s).len() ==> encode_seq(s)[j] != 0) by {
            assert(encode_seq(s) == units + encode_seq(rest));
            assert(forall|j: int|
                0 <= j < encode_seq(s).len() && j < units.len() ==> encode_seq(s)[j] == units[j]);
            assert(forall|j: int|
                units.len() <= j < encode_seq(s).len() ==> encode_seq(s)[j] == encode_seq(rest)[j
                    - units.len()]);
        };
    }
}

/// The written text never holds the zero scalar, and writing changes
/// nothing of a text that held none.
pub proof fn lemma_sanitize_no_nul(s: Seq<char>)
    ensures
        !has_nul_char(sanitize(s)),
        !has_nul_char(s) ==> sanitize(s) == s,
{
    assert(replacement_char() as int == 0xFFFD);
    assert(forall|i: int| 0 <= i < s.len() ==> (#[trigger] sanitize(s)[i]) as int != 0);
    if !has_nul_char(s) {
        assert(sanitize(s) =~= s);
    }
}

/// Decoding an encoded buffer through its terminator reproduces the written
/// text exactly, for every text; where the text held no zero scalar, that
/// is the text itself.
pub proof fn lemma_encode_decode_round_trip(s: Seq<char>)
    ensures
        decode_seq(prefix_to_nul(wide_of(s))) == sanitize(s),
        !has_nul_char(s) ==> decode_seq(prefix_to_nul(wide_of(s))) == s,
{
    lemma_sanitize_no_nul(s);
    lemma_encode_no_nul_unit(sanitize(s));
    lemma_prefix_of_nul_terminated(encode_seq(sanitize(s)));
    lemma_decode_encode(sanitize(s));
}

/// Appends the UTF-16 units of one character.
fn push_units_of_char(units: &mut Vec<u16>, c: char)
    ensures
        final(units)@ == old(units)@ + units_of_char(c),
{
    let v = c as u32;
    if v < 0x10000 {
        units.push(v as u16);
        assert(final(units)@ =~= old(units)@ + units_of_char(c));
    } else {
        let rest = v - 0x10000;
        let hi = 0xD800u32 + rest / 0x400;
        let lo = 0xDC00u32 + rest % 0x400;
        units.push(hi as u16);
        units.push(lo as u16);
        assert(final(units)@ =~= old(units)@ + units_of_char(c));
    }
}

/// Encoding one more character extends the encoding of the prefix.
proof fn lemma_encode_seq_snoc(s: Seq<char>, i: int)
    requires
        0 <= i < s.len(),
    ensures
        encode_seq(s.subrange(0, i + 1)) == encode_seq(s.subrange(0, i)) + units_of_char(s[i]),
{
    lemma_encode_seq_concat(s.subrange(0, i), seq![s[i]]);
    assert(s.subrange(0, i + 1) =~= s.subrange(0, i) + seq![s[i]]);
    let one = seq![s[i]];
    assert(one.subrange(1, 1) =~= Seq::<char>::empty());
    assert(encode_seq(one) == units_of_char(s[i]) + encode_seq(Seq::<char>::empty()));
    assert(encode_seq(one) =~= units_of_char(s[i]));
}

/// Encoding distributes over concatenation.
proof fn lemma_encode_seq_concat(a: Seq<char>, b: Seq<char>)
    ensures
        encode_seq(a + b) == encode_seq(a) + encode_seq(b),
    decreases a.len(),
{
    if a.len() == 0 {
        assert(a + b =~= b);
        assert(encode_seq(a) + encode_seq(b) =~= encode_seq(b));
    } else {
        let t = a.subrange(1, a.len() as int);
        lemma_encode_seq_concat(t, b);
        assert((a + b).subrange(1, (a + b).len() as int) =~= t + b);
        assert((a + b)[0] == a[0]);
        assert(encode_seq(a + b) =~= units_of_char(a[0]) + (encode_seq(t) + encode_seq(b)));
        assert(units_of_char(a[0]) + (encode_seq(t) + encode_seq(b)) =~= (units_of_char(a[0])
            + encode_seq(t)) + encode_seq(b));
    }
}

} // verus!
