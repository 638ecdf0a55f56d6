//! The wire model: the chain's JSON values as plain data.
use vstd::prelude::*;
use vstd::string::*;

verus! {

/// Errors of the decoding side of the codec.
#[derive(PartialEq, Eq, Structural, Clone, Copy, Debug)]
pub enum DecodeError {
    /// The type tag names no known variant.
    UnknownDiscriminator,
    /// A field that the recognised variant needs is absent.
    MissingField,
    /// The object holds fields of more than one variant.
    AmbiguousPayload,
    /// A field holds a value of the wrong kind.
    MalformedValue,
}

/// One JSON value as the chain writes it.
#[derive(PartialEq, Eq, Debug)]
pub enum WireValue {
    Null,
    Bool(bool),
    /// A JSON number.
    Number(u64),
    /// A 64-bit unsigned integer written as a decimal string.
    Quoted(u64),
    Text(String),
    /// Opaque bytes, written as base64 text.
    Bytes(Vec<u8>),
    List(Vec<WireValue>),
    /// An object, its fields in the order in which they are written.
    Object(Vec<WireField>),
}

/// One field of a JSON object.
#[derive(PartialEq, Eq, Debug)]
pub struct WireField {
    pub key: String,
    pub value: WireValue,
}

/// The value of the first field named `key`, if any.
pub open spec fn find_field(fs: Seq<WireField>, key: Seq<char>) -> Option<WireValue>
    decreases fs.len(),
{
    if fs.len() == 0 {
        None
    } else if fs[0].key@ == key {
        Some(fs[0].value)
    } else {
        find_field(fs.drop_first(), key)
    }
}

/// Looks up the first field named `key`.
pub fn get_field<'a>(fs: &'a Vec<WireField>, key: &String) -> (r: Option<&'a WireValue>)
    ensures
        match r {
            Some(v) => find_field(fs@, key@) == Some(*v),
            None => find_field(fs@, key@) is None,
        },
{
    let n = fs.len();
    let mut i: usize = 0;
    assert(fs@.subrange(0, n as int) =~= fs@);
    while i < n
        invariant
            n == fs@.len(),
            0 <= i <= n,
            find_field(fs@, key@) == find_field(fs@.subrange(i as int, n as int), key@),
        decreases n - i,
    {
        assert(fs@.subrange(i as int, n as int)[0] == fs@[i as int]);
        if fs[i].key == *key {
            return Some(&fs[i].value);
        }
        assert(fs@.subrange(i as int, n as int).drop_first() =~= fs@.subrange(i + 1, n as int));
        i = i + 1;
    }
    None
}


/// The key under which a tagged object names its variant.
pub const TYPE_KEY: &'static str = "@type";

/// A field of the given key and value.
pub fn field(key: &str, value: WireValue) -> (f: WireField)
    ensures
        f.key@ == key@,
        f.value == value,
{
    WireField { key: String::from_str(key), value }
}

/// Whether `s` spells the literal `lit`.
pub fn text_is(s: &String, lit: &str) -> (r: bool)
    ensures
        r == (s@ == lit@),
{
    let l = String::from_str(lit);
    *s == l
}

/// The field `f` has the key `key` and the text `t`.
pub open spec fn is_text_field(f: WireField, key: Seq<char>, t: Seq<char>) -> bool {
    &&& f.key@ == key
    &&& f.value matches WireValue::Text(s) && s@ == t
}

/// Whether an object has a field named `key`.
pub open spec fn has_field(fs: Seq<WireField>, key: Seq<char>) -> bool {
    find_field(fs, key) is Some
}

/// A required text field.
pub open spec fn text_of(f: Option<WireValue>) -> Result<Seq<char>, DecodeError> {
    match f {
        None => Err(DecodeError::MissingField),
        Some(WireValue::Text(t)) => Ok(t@),
        Some(_) => Err(DecodeError::MalformedValue),
    }
}

/// An optional text field: absent or null is `None`.
pub open spec fn opt_text_of(f: Option<WireValue>) -> Result<Option<Seq<char>>, DecodeError> {
    match f {
        None => Ok(None),
        Some(WireValue::Null) => Ok(None),
        Some(WireValue::Text(t)) => Ok(Some(t@)),
        Some(_) => Err(DecodeError::MalformedValue),
    }
}

/// Whether `c` is a decimal digit.
pub open spec fn is_digit(c: char) -> bool {
    48 <= c as u32 <= 57
}

/// The number that a string of decimal digits writes.
pub open spec fn digits_value(s: Seq<char>) -> int
    decreases s.len(),
{
    if s.len() == 0 {
        0
    } else {
        digits_value(s.drop_last()) * 10 + (s.last() as u32 - 48)
    }
}

/// A 64-bit integer read from its decimal text: one or more digits whose
/// value fits.
pub open spec fn decimal_of(s: Seq<char>) -> Result<u64, DecodeError> {
    if s.len() > 0 && (forall|i: int| 0 <= i < s.len() ==> is_digit(#[trigger] s[i]))
        && digits_value(s) <= u64::MAX {
        Ok(digits_value(s) as u64)
    } else {
        Err(DecodeError::MalformedValue)
    }
}

/// A required 64-bit integer, written as a decimal string; a text of decimal
/// digits is read the same way.
pub open spec fn quoted_of(f: Option<WireValue>) -> Result<u64, DecodeError> {
    match f {
        None => Err(DecodeError::MissingField),
        Some(WireValue::Quoted(n)) => Ok(n),
        Some(WireValue::Text(t)) => decimal_of(t@),
        Some(_) => Err(DecodeError::MalformedValue),
    }
}

/// A longer string of digits writes at least as much as its prefix.
pub proof fn lemma_digits_grow(s: Seq<char>, k: int)
    requires
        0 <= k <= s.len(),
        forall|i: int| 0 <= i < s.len() ==> is_digit(#[trigger] s[i]),
    ensures
        0 <= digits_value(s.take(k)) <= digits_value(s),
    decreases s.len(),
{
    if s.len() > 0 {
        if k == s.len() {
            assert(s.take(k) =~= s);
            lemma_digits_grow(s.drop_last(), s.len() - 1);
            assert(s.drop_last().take(s.len() - 1) =~= s.drop_last());
        } else {
            lemma_digits_grow(s.drop_last(), k);
            assert(s.drop_last().take(k) =~= s.take(k));
            lemma_digits_grow(s.drop_last(), s.len() - 1);
            assert(s.drop_last().take(s.len() - 1) =~= s.drop_last());
        }
    }
}

/// Reads a 64-bit integer from its decimal text.
pub fn parse_decimal(t: &String) -> (r: Result<u64, DecodeError>)
    ensures
        r == decimal_of(t@),
{
    let s = t.as_str();
    let n = s.unicode_len();
    if n == 0 {
        return Err(DecodeError::MalformedValue);
    }
    let mut acc: u64 = 0;
    let mut i: usize = 0;
    while i < n
        invariant
            n as int == t@.len(),
            s@ == t@,
            0 <= i <= n,
            forall|j: int| 0 <= j < i ==> is_digit(#[trigger] t@[j]),
            acc as int == digits_value(t@.take(i as int)),
        decreases n - i,
    {
        let c = s.get_char(i);
        assert(t@.take(i + 1).drop_last() =~= t@.take(i as int));
        if !('0' <= c && c <= '9') {
            return Err(DecodeError::MalformedValue);
        }
        let d = (c as u32 - 48) as u64;
        if acc > (u64::MAX - d) / 10 {
            proof {
                assert(acc * 10 + d > u64::MAX) by (nonlinear_arith)
                    requires
                        acc > (u64::MAX - d) / 10,
                        d <= 9,
                ;
                if forall|j: int| 0 <= j < t@.len() ==> is_digit(#[trigger] t@[j]) {
                    lemma_digits_grow(t@, i + 1);
                }
            }
            return Err(DecodeError::MalformedValue);
        }
        proof {
            assert(acc * 10 + d <= u64::MAX) by (nonlinear_arith)
                requires
                    acc <= (u64::MAX - d) / 10,
                    d <= 9,
            ;
        }
        acc = acc * 10 + d;
        i = i + 1;
    }
    assert(t@.take(n as int) =~= t@);
    Ok(acc)
}

/// A required 32-bit integer, written as a JSON number.
pub open spec fn u32_of(f: Option<WireValue>) -> Result<u32, DecodeError> {
    match f {
        None => Err(DecodeError::MissingField),
        Some(WireValue::Number(n)) => if n <= u32::MAX {
            Ok(n as u32)
        } else {
            Err(DecodeError::MalformedValue)
        },
        Some(_) => Err(DecodeError::MalformedValue),
    }
}

/// A required boolean.
pub open spec fn bool_of(f: Option<WireValue>) -> Result<bool, DecodeError> {
    match f {
        None => Err(DecodeError::MissingField),
        Some(WireValue::Bool(b)) => Ok(b),
        Some(_) => Err(DecodeError::MalformedValue),
    }
}

/// How many fields are named `key`.
pub open spec fn key_count(fs: Seq<WireField>, key: Seq<char>) -> nat
    decreases fs.len(),
{
    if fs.len() == 0 {
        0
    } else {
        key_count(fs.drop_last(), key) + if fs.last().key@ == key {
            1nat
        } else {
            0nat
        }
    }
}

/// The type tag of a tagged object: it must be there, and only once.
pub open spec fn tag_of(fs: Seq<WireField>) -> Result<Seq<char>, DecodeError> {
    if key_count(fs, TYPE_KEY@) > 1 {
        Err(DecodeError::AmbiguousPayload)
    } else {
        text_of(find_field(fs, TYPE_KEY@))
    }
}

/// No field is named `key`: the count is zero.
pub proof fn lemma_key_count_zero(fs: Seq<WireField>, key: Seq<char>)
    requires
        forall|j: int| 0 <= j < fs.len() ==> fs[j].key@ != key,
    ensures
        key_count(fs, key) == 0,
    decreases fs.len(),
{
    if fs.len() > 0 {
        lemma_key_count_zero(fs.drop_last(), key);
    }
}

/// Only the field at `i` is named `key`: the count is one.
pub proof fn lemma_key_count_one(fs: Seq<WireField>, key: Seq<char>, i: int)
    requires
        0 <= i < fs.len(),
        fs[i].key@ == key,
        forall|j: int| 0 <= j < fs.len() && j != i ==> fs[j].key@ != key,
    ensures
        key_count(fs, key) == 1,
    decreases fs.len(),
{
    if i == fs.len() - 1 {
        lemma_key_count_zero(fs.drop_last(), key);
    } else {
        lemma_key_count_one(fs.drop_last(), key, i);
    }
}

/// Counts the fields named `key`.
pub fn count_field(fs: &Vec<WireField>, key: &str) -> (n: usize)
    ensures
        n == key_count(fs@, key@),
{
    let k = String::from_str(key);
    let len = fs.len();
    let mut n: usize = 0;
    let mut i: usize = 0;
    while i < len
        invariant
            len == fs@.len(),
            0 <= i <= len,
            k@ == key@,
            n == key_count(fs@.take(i as int), key@),
            n <= i,
        decreases len - i,
    {
        assert(fs@.take(i + 1).drop_last() =~= fs@.take(i as int));
        if fs[i].key == k {
            n = n + 1;
        }
        i = i + 1;
    }
    assert(fs@.take(len as int) =~= fs@);
    n
}

/// Reads the type tag of a tagged object.
pub fn read_tag(fs: &Vec<WireField>) -> (r: Result<String, DecodeError>)
    ensures
        text_result(r) == tag_of(fs@),
{
    if count_field(fs, TYPE_KEY) > 1 {
        return Err(DecodeError::AmbiguousPayload);
    }
    read_text(fs, TYPE_KEY)
}

/// An optional text as characters.
pub open spec fn opt_view(o: Option<String>) -> Option<Seq<char>> {
    match o {
        Some(t) => Some(t@),
        None => None,
    }
}

/// A decoded text as characters.
pub open spec fn text_result(r: Result<String, DecodeError>) -> Result<Seq<char>, DecodeError> {
    match r {
        Ok(t) => Ok(t@),
        Err(e) => Err(e),
    }
}

/// A decoded optional text as characters.
pub open spec fn opt_text_result(r: Result<Option<String>, DecodeError>) -> Result<
    Option<Seq<char>>,
    DecodeError,
> {
    match r {
        Ok(o) => Ok(opt_view(o)),
        Err(e) => Err(e),
    }
}

/// A decoded value as its model.
pub open spec fn view_result<T: View>(r: Result<T, DecodeError>) -> Result<T::V, DecodeError> {
    match r {
        Ok(t) => Ok(t@),
        Err(e) => Err(e),
    }
}

/// Decodes each item of a list with `f`, stopping at the first error.
pub open spec fn decode_all<T>(
    ws: Seq<WireValue>,
    f: spec_fn(WireValue) -> Result<T, DecodeError>,
) -> Result<Seq<T>, DecodeError>
    decreases ws.len(),
{
    if ws.len() == 0 {
        Ok(Seq::empty())
    } else {
        match decode_all(ws.drop_last(), f) {
            Err(e) => Err(e),
            Ok(p) => match f(ws.last()) {
                Err(e) => Err(e),
                Ok(x) => Ok(p.push(x)),
            },
        }
    }
}

/// Decoding a list whose items each decode gives the decoded items.
pub proof fn lemma_decode_all_ok<T>(
    ws: Seq<WireValue>,
    ms: Seq<T>,
    f: spec_fn(WireValue) -> Result<T, DecodeError>,
)
    requires
        ws.len() == ms.len(),
        forall|i: int| 0 <= i < ws.len() ==> f(ws[i]) == Ok::<T, DecodeError>(ms[i]),
    ensures
        decode_all(ws, f) == Ok::<Seq<T>, DecodeError>(ms),
    decreases ws.len(),
{
    if ws.len() > 0 {
        lemma_decode_all_ok(ws.drop_last(), ms.drop_last(), f);
        assert(ms.drop_last().push(ms.last()) =~= ms);
    } else {
        assert(ms =~= Seq::empty());
    }
}

/// An error in a prefix of a list is the error of the whole list.
pub proof fn lemma_decode_all_err<T>(
    ws: Seq<WireValue>,
    f: spec_fn(WireValue) -> Result<T, DecodeError>,
    i: int,
)
    requires
        0 <= i <= ws.len(),
        decode_all(ws.take(i), f) is Err,
    ensures
        decode_all(ws, f) == decode_all(ws.take(i), f),
    decreases ws.len() - i,
{
    if i < ws.len() {
        assert(ws.take(i + 1).drop_last() =~= ws.take(i));
        lemma_decode_all_err(ws, f, i + 1);
    } else {
        assert(ws.take(i) =~= ws);
    }
}

/// An item that fails makes the whole list fail.
pub proof fn lemma_decode_all_item_err<T>(
    ws: Seq<WireValue>,
    f: spec_fn(WireValue) -> Result<T, DecodeError>,
    i: int,
)
    requires
        0 <= i < ws.len(),
        f(ws[i]) is Err,
    ensures
        decode_all(ws, f) is Err,
{
    assert(ws.take(i + 1).drop_last() =~= ws.take(i));
    assert(ws.take(i + 1).last() == ws[i]);
    lemma_decode_all_err(ws, f, i + 1);
}

/// Decoding one more item of a list.
pub proof fn lemma_decode_all_step<T>(
    ws: Seq<WireValue>,
    f: spec_fn(WireValue) -> Result<T, DecodeError>,
    i: int,
)
    requires
        0 <= i < ws.len(),
    ensures
        decode_all(ws.take(i + 1), f) == match decode_all(ws.take(i), f) {
            Err(e) => Err(e),
            Ok(p) => match f(ws[i]) {
                Err(e) => Err(e),
                Ok(x) => Ok(p.push(x)),
            },
        },
{
    assert(ws.take(i + 1).drop_last() =~= ws.take(i));
}

/// Looks up a field by a literal key.
pub fn lookup<'a>(fs: &'a Vec<WireField>, key: &str) -> (r: Option<&'a WireValue>)
    ensures
        match r {
            Some(v) => find_field(fs@, key@) == Some(*v),
            None => find_field(fs@, key@) is None,
        },
{
    let k = String::from_str(key);
    get_field(fs, &k)
}

/// Whether the object has a field named `key`.
pub fn contains_field(fs: &Vec<WireField>, key: &str) -> (r: bool)
    ensures
        r == has_field(fs@, key@),
{
    lookup(fs, key).is_some()
}

/// Reads a required text field.
pub fn read_text(fs: &Vec<WireField>, key: &str) -> (r: Result<String, DecodeError>)
    ensures
        text_result(r) == text_of(find_field(fs@, key@)),
{
    match lookup(fs, key) {
        None => Err(DecodeError::MissingField),
        Some(WireValue::Text(t)) => Ok(t.clone()),
        Some(_) => Err(DecodeError::MalformedValue),
    }
}

/// Reads an optional text field.
pub fn read_opt_text(fs: &Vec<WireField>, key: &str) -> (r: Result<Option<String>, DecodeError>)
    ensures
        opt_text_result(r) == opt_text_of(find_field(fs@, key@)),
{
    match lookup(fs, key) {
        None => Ok(None),
        Some(WireValue::Null) => Ok(None),
        Some(WireValue::Text(t)) => Ok(Some(t.clone())),
        Some(_) => Err(DecodeError::MalformedValue),
    }
}

/// Reads a required 64-bit integer.
pub fn read_quoted(fs: &Vec<WireField>, key: &str) -> (r: Result<u64, DecodeError>)
    ensures
        r == quoted_of(find_field(fs@, key@)),
{
    match lookup(fs, key) {
        None => Err(DecodeError::MissingField),
        Some(WireValue::Quoted(n)) => Ok(*n),
        Some(WireValue::Text(t)) => parse_decimal(t),
        Some(_) => Err(DecodeError::MalformedValue),
    }
}

/// Reads a required 32-bit integer.
pub fn read_u32(fs: &Vec<WireField>, key: &str) -> (r: Result<u32, DecodeError>)
    ensures
        r == u32_of(find_field(fs@, key@)),
{
    match lookup(fs, key) {
        None => Err(DecodeError::MissingField),
        Some(WireValue::Number(n)) => if *n <= 0xffff_ffffu64 {
            Ok(*n as u32)
        } else {
            Err(DecodeError::MalformedValue)
        },
        Some(_) => Err(DecodeError::MalformedValue),
    }
}

/// Reads a required boolean.
pub fn read_bool(fs: &Vec<WireField>, key: &str) -> (r: Result<bool, DecodeError>)
    ensures
        r == bool_of(find_field(fs@, key@)),
{
    match lookup(fs, key) {
        None => Err(DecodeError::MissingField),
        Some(WireValue::Bool(b)) => Ok(*b),
        Some(_) => Err(DecodeError::MalformedValue),
    }
}

/// The first field named `key` is the one at `i`.
pub proof fn lemma_find_at(fs: Seq<WireField>, key: Seq<char>, i: int)
    requires
        0 <= i < fs.len(),
        fs[i].key@ == key,
        forall|j: int| 0 <= j < i ==> fs[j].key@ != key,
    ensures
        find_field(fs, key) == Some(fs[i].value),
    decreases i,
{
    if i > 0 {
        lemma_find_at(fs.drop_first(), key, i - 1);
    }
}

/// No field is named `key`.
pub proof fn lemma_find_none(fs: Seq<WireField>, key: Seq<char>)
    requires
        forall|j: int| 0 <= j < fs.len() ==> fs[j].key@ != key,
    ensures
        find_field(fs, key) is None,
    decreases fs.len(),
{
    if fs.len() > 0 {
        lemma_find_none(fs.drop_first(), key);
    }
}

/// The object's fields carry exactly the keys `ks`, in order.
pub open spec fn keys_are(fs: Seq<WireField>, ks: Seq<Seq<char>>) -> bool {
    &&& fs.len() == ks.len()
    &&& forall|i: int| 0 <= i < fs.len() ==> #[trigger] fs[i].key@ == ks[i]
}

/// With distinct keys, each key finds its own field.
pub proof fn lemma_find_keyed(fs: Seq<WireField>, ks: Seq<Seq<char>>, i: int)
    requires
        keys_are(fs, ks),
        ks.no_duplicates(),
        0 <= i < ks.len(),
    ensures
        find_field(fs, ks[i]) == Some(fs[i].value),
{
    assert forall|j: int| 0 <= j < i implies fs[j].key@ != ks[i] by {
        assert(fs[j].key@ == ks[j]);
    }
    lemma_find_at(fs, ks[i], i);
}

/// A key outside `ks` finds nothing.
pub proof fn lemma_find_absent(fs: Seq<WireField>, ks: Seq<Seq<char>>, k: Seq<char>)
    requires
        keys_are(fs, ks),
        !ks.contains(k),
    ensures
        find_field(fs, k) is None,
{
    assert forall|j: int| 0 <= j < fs.len() implies fs[j].key@ != k by {
        assert(fs[j].key@ == ks[j]);
    }
    lemma_find_none(fs, k);
}

/// One field that a message must carry: its key, and what its value must be.
pub type FieldRule = (Seq<char>, spec_fn(WireValue) -> bool);

/// A field holding a 64-bit integer.
pub open spec fn quoted_rule(key: Seq<char>, n: u64) -> FieldRule {
    (key, |w: WireValue| w == WireValue::Quoted(n))
}

/// A field holding a JSON number.
pub open spec fn number_rule(key: Seq<char>, n: u64) -> FieldRule {
    (key, |w: WireValue| w == WireValue::Number(n))
}

/// A field holding a text.
pub open spec fn text_rule(key: Seq<char>, t: Seq<char>) -> FieldRule {
    (key, |w: WireValue| w matches WireValue::Text(s) && s@ == t)
}

/// The fields follow the rules, one for one and in order.
pub open spec fn fields_follow(fs: Seq<WireField>, rules: Seq<FieldRule>) -> bool {
    &&& fs.len() == rules.len()
    &&& forall|i: int|
        0 <= i < fs.len() ==> #[trigger] fs[i].key@ == rules[i].0 && (rules[i].1)(fs[i].value)
}

/// One more field that follows one more rule.
pub proof fn lemma_fields_follow_push(
    fs: Seq<WireField>,
    rules: Seq<FieldRule>,
    f: WireField,
    rule: FieldRule,
)
    requires
        fields_follow(fs, rules),
        f.key@ == rule.0,
        (rule.1)(f.value),
    ensures
        fields_follow(fs.push(f), rules.push(rule)),
{
    assert forall|i: int| 0 <= i < fs.len() + 1 implies #[trigger] fs.push(f)[i].key@ == rules.push(
        rule,
    )[i].0 && (rules.push(rule)[i].1)(fs.push(f)[i].value) by {
        if i < fs.len() {
            assert(fs.push(f)[i] == fs[i]);
            assert(rules.push(rule)[i] == rules[i]);
        }
    }
}

/// A field holding a boolean.
pub open spec fn bool_rule(key: Seq<char>, b: bool) -> FieldRule {
    (key, |w: WireValue| w == WireValue::Bool(b))
}

/// A field holding bytes.
pub open spec fn bytes_rule(key: Seq<char>, b: Seq<u8>) -> FieldRule {
    (key, |w: WireValue| w matches WireValue::Bytes(v) && v@ == b)
}

/// A field holding the wire shape of a value.
pub open spec fn codec_rule<T: WireCodec>(key: Seq<char>, m: <T as View>::V) -> FieldRule {
    (key, |w: WireValue| T::is_wire(m, w))
}

/// A field holding a list of values.
pub open spec fn list_rule<T: WireCodec>(key: Seq<char>, ms: Seq<<T as View>::V>) -> FieldRule {
    (key, |w: WireValue| is_list_wire::<T>(ms, w))
}

/// The rule of an optional field: none when it is unset.
pub open spec fn opt_rule(r: Option<FieldRule>) -> Seq<FieldRule> {
    match r {
        Some(r) => seq![r],
        None => Seq::empty(),
    }
}

/// An optional text field.
pub open spec fn opt_text_rule(key: Seq<char>, o: Option<Seq<char>>) -> Seq<FieldRule> {
    opt_rule(
        match o {
            Some(t) => Some(text_rule(key, t)),
            None => None,
        },
    )
}

/// An optional 64-bit integer field.
pub open spec fn opt_quoted_rule(key: Seq<char>, o: Option<u64>) -> Seq<FieldRule> {
    opt_rule(
        match o {
            Some(n) => Some(quoted_rule(key, n)),
            None => None,
        },
    )
}

/// An optional 32-bit integer field.
pub open spec fn opt_number_rule(key: Seq<char>, o: Option<u32>) -> Seq<FieldRule> {
    opt_rule(
        match o {
            Some(n) => Some(number_rule(key, n as u64)),
            None => None,
        },
    )
}

/// Appends a field that follows one more rule.
pub fn push_field(
    fs: &mut Vec<WireField>,
    Ghost(rules): Ghost<Seq<FieldRule>>,
    f: WireField,
    Ghost(rule): Ghost<FieldRule>,
)
    requires
        fields_follow(old(fs)@, rules),
        f.key@ == rule.0,
        (rule.1)(f.value),
    ensures
        fields_follow(final(fs)@, rules.push(rule)),
{
    proof {
        lemma_fields_follow_push(old(fs)@, rules, f, rule);
    }
    fs.push(f);
}

/// Appends an optional text field when it is set.
pub fn push_opt_text(
    fs: &mut Vec<WireField>,
    Ghost(rules): Ghost<Seq<FieldRule>>,
    key: &str,
    o: &Option<String>,
)
    requires
        fields_follow(old(fs)@, rules),
    ensures
        fields_follow(final(fs)@, rules + opt_text_rule(key@, opt_view(*o))),
{
    match o {
        Some(t) => {
            push_field(fs, Ghost(rules), field(key, WireValue::Text(t.clone())), Ghost(text_rule(key@, t@)));
            assert(rules.push(text_rule(key@, t@)) =~= rules + opt_text_rule(key@, opt_view(*o)));
        },
        None => {
            assert(rules =~= rules + opt_text_rule(key@, opt_view(*o)));
        },
    }
}

/// Appends an optional 64-bit integer field when it is set.
pub fn push_opt_quoted(
    fs: &mut Vec<WireField>,
    Ghost(rules): Ghost<Seq<FieldRule>>,
    key: &str,
    o: Option<u64>,
)
    requires
        fields_follow(old(fs)@, rules),
    ensures
        fields_follow(final(fs)@, rules + opt_quoted_rule(key@, o)),
{
    match o {
        Some(n) => {
            push_field(fs, Ghost(rules), field(key, WireValue::Quoted(n)), Ghost(quoted_rule(key@, n)));
            assert(rules.push(quoted_rule(key@, n)) =~= rules + opt_quoted_rule(key@, o));
        },
        None => {
            assert(rules =~= rules + opt_quoted_rule(key@, o));
        },
    }
}

/// Appends an optional 32-bit integer field when it is set.
pub fn push_opt_number(
    fs: &mut Vec<WireField>,
    Ghost(rules): Ghost<Seq<FieldRule>>,
    key: &str,
    o: Option<u32>,
)
    requires
        fields_follow(old(fs)@, rules),
    ensures
        fields_follow(final(fs)@, rules + opt_number_rule(key@, o)),
{
    match o {
        Some(n) => {
            push_field(
                fs,
                Ghost(rules),
                field(key, WireValue::Number(n as u64)),
                Ghost(number_rule(key@, n as u64)),
            );
            assert(rules.push(number_rule(key@, n as u64)) =~= rules + opt_number_rule(key@, o));
        },
        None => {
            assert(rules =~= rules + opt_number_rule(key@, o));
        },
    }
}

/// The wire shape of a message or query: an object whose one key names it
/// and holds its fields, which follow `rules`.
pub open spec fn is_envelope_wire(name: Seq<char>, rules: Seq<FieldRule>, w: WireValue) -> bool {
    &&& w matches WireValue::Object(outer)
    &&& outer@.len() == 1
    &&& outer@[0].key@ == name
    &&& outer@[0].value matches WireValue::Object(fs)
    &&& fields_follow(fs@, rules)
}

/// Wraps the fields of a message or query under its name.
pub fn envelope(name: &str, fs: Vec<WireField>) -> (w: WireValue)
    ensures
        w matches WireValue::Object(outer) && outer@.len() == 1 && outer@[0].key@ == name@
            && outer@[0].value == WireValue::Object(fs),
{
    let mut outer: Vec<WireField> = Vec::new();
    outer.push(field(name, WireValue::Object(fs)));
    WireValue::Object(outer)
}

/// A value with one wire shape, which decoding reads back.
pub trait WireCodec: View + Sized {
    /// What decoding a wire value as `Self` gives.
    spec fn decoder() -> spec_fn(WireValue) -> Result<<Self as View>::V, DecodeError>;

    /// Whether `w` is the wire shape of `m`.
    spec fn is_wire(m: <Self as View>::V, w: WireValue) -> bool;

    /// The wire shape of this value; decoding it gives the value back.
    fn encode(&self) -> (w: WireValue)
        ensures
            Self::is_wire(self@, w),
            (Self::decoder())(w) == Ok::<<Self as View>::V, DecodeError>(self@);

    /// Reads a value from its wire shape.
    fn decode(w: &WireValue) -> (r: Result<Self, DecodeError>)
        ensures
            view_result(r) == (Self::decoder())(*w);

    /// Decoding the wire shape of a value gives the value back.
    proof fn lemma_wire_round_trip(m: <Self as View>::V, w: WireValue)
        requires
            Self::is_wire(m, w),
        ensures
            (Self::decoder())(w) == Ok::<<Self as View>::V, DecodeError>(m);
}

/// Decoding the wire shape of a list gives the list back.
pub proof fn lemma_list_round_trip<T: WireCodec>(ms: Seq<<T as View>::V>, w: WireValue)
    requires
        is_list_wire::<T>(ms, w),
    ensures
        decode_list_spec::<T>(w) == Ok::<Seq<<T as View>::V>, DecodeError>(ms),
{
    let vs = w->List_0@;
    assert forall|i: int| 0 <= i < vs.len() implies (T::decoder())(vs[i]) == Ok::<
        <T as View>::V,
        DecodeError,
    >(ms[i]) by {
        T::lemma_wire_round_trip(ms[i], vs[i]);
    }
    lemma_decode_all_ok(vs, ms, T::decoder());
}

/// The models of a list of values.
pub open spec fn list_view<T: View>(s: Seq<T>) -> Seq<T::V> {
    s.map_values(|x: T| x@)
}

/// The wire shape of a list: the items' shapes in order.
pub open spec fn is_list_wire<T: WireCodec>(ms: Seq<<T as View>::V>, w: WireValue) -> bool {
    &&& w matches WireValue::List(vs)
    &&& vs@.len() == ms.len()
    &&& forall|i: int| 0 <= i < ms.len() ==> #[trigger] T::is_wire(ms[i], vs@[i])
}

/// What decoding a wire value as a list of `T` gives.
pub open spec fn decode_list_spec<T: WireCodec>(w: WireValue) -> Result<
    Seq<<T as View>::V>,
    DecodeError,
> {
    match w {
        WireValue::List(vs) => decode_all(vs@, T::decoder()),
        _ => Err(DecodeError::MalformedValue),
    }
}

/// The wire shape of a list; decoding it gives the list back.
pub fn encode_list<T: WireCodec>(v: &Vec<T>) -> (w: WireValue)
    ensures
        is_list_wire::<T>(list_view(v@), w),
        decode_list_spec::<T>(w) == Ok::<Seq<<T as View>::V>, DecodeError>(list_view(v@)),
{
    let n = v.len();
    let mut vs: Vec<WireValue> = Vec::new();
    let mut i: usize = 0;
    while i < n
        invariant
            n == v@.len(),
            0 <= i <= n,
            vs@.len() == i,
            forall|j: int| 0 <= j < i ==> #[trigger] T::is_wire(v@[j]@, vs@[j]),
            forall|j: int|
                0 <= j < i ==> (T::decoder())(#[trigger] vs@[j]) == Ok::<
                    <T as View>::V,
                    DecodeError,
                >(v@[j]@),
        decreases n - i,
    {
        let x = v[i].encode();
        vs.push(x);
        i = i + 1;
    }
    assert(list_view(v@).len() == vs@.len());
    assert forall|j: int| 0 <= j < vs@.len() implies (T::decoder())(vs@[j]) == Ok::<
        <T as View>::V,
        DecodeError,
    >(list_view(v@)[j]) by {}
    proof {
        lemma_decode_all_ok(vs@, list_view(v@), T::decoder());
    }
    WireValue::List(vs)
}

/// Reads a list of values.
pub fn decode_list<T: WireCodec>(w: &WireValue) -> (r: Result<Vec<T>, DecodeError>)
    ensures
        match r {
            Ok(v) => decode_list_spec::<T>(*w) == Ok::<Seq<<T as View>::V>, DecodeError>(
                list_view(v@),
            ),
            Err(e) => decode_list_spec::<T>(*w) == Err::<Seq<<T as View>::V>, DecodeError>(e),
        },
{
    match w {
        WireValue::List(vs) => decode_items(vs),
        _ => Err(DecodeError::MalformedValue),
    }
}

/// Reads each item of a list.
fn decode_items<T: WireCodec>(vs: &Vec<WireValue>) -> (r: Result<Vec<T>, DecodeError>)
    ensures
        match r {
            Ok(v) => decode_all(vs@, T::decoder()) == Ok::<Seq<<T as View>::V>, DecodeError>(
                list_view(v@),
            ),
            Err(e) => decode_all(vs@, T::decoder()) == Err::<Seq<<T as View>::V>, DecodeError>(e),
        },
{
    let n = vs.len();
    let mut out: Vec<T> = Vec::new();
    let mut i: usize = 0;
    assert(list_view(out@) =~= Seq::empty());
    while i < n
        invariant
            n == vs@.len(),
            0 <= i <= n,
            decode_all(vs@.take(i as int), T::decoder()) == Ok::<Seq<<T as View>::V>, DecodeError>(
                list_view(out@),
            ),
        decreases n - i,
    {
        proof {
            lemma_decode_all_step(vs@, T::decoder(), i as int);
        }
        match T::decode(&vs[i]) {
            Ok(x) => {
                let ghost before = out@;
                out.push(x);
                assert(list_view(out@) =~= list_view(before).push(x@));
            },
            Err(e) => {
                proof {
                    lemma_decode_all_err(vs@, T::decoder(), i + 1);
                }
                return Err(e);
            },
        }
        i = i + 1;
    }
    assert(vs@.take(n as int) =~= vs@);
    Ok(out)
}

impl WireCodec for u32 {
    open spec fn decoder() -> spec_fn(WireValue) -> Result<u32, DecodeError> {
        |w: WireValue| u32_of(Some(w))
    }

    open spec fn is_wire(m: u32, w: WireValue) -> bool {
        w == WireValue::Number(m as u64)
    }

    fn encode(&self) -> (w: WireValue) {
        WireValue::Number(*self as u64)
    }

    fn decode(w: &WireValue) -> (r: Result<u32, DecodeError>) {
        match w {
            WireValue::Number(n) => if *n <= 0xffff_ffffu64 {
                Ok(*n as u32)
            } else {
                Err(DecodeError::MalformedValue)
            },
            _ => Err(DecodeError::MalformedValue),
        }
    }

    proof fn lemma_wire_round_trip(m: u32, w: WireValue) {
    }
}

} // verus!
