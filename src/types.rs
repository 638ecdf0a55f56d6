//! Types shared by every module: pagination, and the response shapes that
//! carry a list of records or a single one.
use vstd::prelude::*;
use crate::wire::{
    bool_rule, bytes_rule, decimal_of, decode_list, decode_list_spec, encode_list, field,
    fields_follow, find_field, is_list_wire, keys_are, lemma_find_absent, lemma_find_keyed,
    lemma_list_round_trip, list_view, lookup, opt_quoted_rule, opt_rule, parse_decimal, push_field,
    push_opt_quoted, quoted_rule, view_result, DecodeError, FieldRule, WireCodec, WireField,
    WireValue,
};

verus! {

/// What page of a list to return.
#[derive(PartialEq, Eq, Debug)]
pub struct PageRequest {
    /// Where the page starts, as handed back by the previous page.
    pub key: Option<Vec<u8>>,
    pub limit: u64,
    pub offset: Option<u64>,
    pub count_total: bool,
    pub reverse: bool,
}

/// The mathematical value of a [`PageRequest`].
pub struct PageRequestModel {
    pub key: Option<Seq<u8>>,
    pub limit: u64,
    pub offset: Option<u64>,
    pub count_total: bool,
    pub reverse: bool,
}

impl View for PageRequest {
    type V = PageRequestModel;

    open spec fn view(&self) -> PageRequestModel {
        PageRequestModel {
            key: match self.key {
                Some(k) => Some(k@),
                None => None,
            },
            limit: self.limit,
            offset: self.offset,
            count_total: self.count_total,
            reverse: self.reverse,
        }
    }
}

/// The fields of a page request, in order; an unset key or offset is left out.
pub open spec fn page_request_rules(m: PageRequestModel) -> Seq<FieldRule> {
    opt_rule(
        match m.key {
            Some(k) => Some(bytes_rule("key"@, k)),
            None => None,
        },
    ) + seq![quoted_rule("limit"@, m.limit)] + opt_quoted_rule("offset"@, m.offset) + seq![
        bool_rule("count_total"@, m.count_total),
        bool_rule("reverse"@, m.reverse),
    ]
}

/// The single wire shape of a page request.
pub open spec fn is_page_request_wire(m: PageRequestModel, w: WireValue) -> bool {
    w matches WireValue::Object(fs) && fields_follow(fs@, page_request_rules(m))
}

/// An optional page request field.
pub open spec fn opt_page_request_rule(key: Seq<char>, o: Option<PageRequestModel>) -> Seq<
    FieldRule,
> {
    opt_rule(
        match o {
            Some(m) => Some((key, |w: WireValue| is_page_request_wire(m, w))),
            None => None,
        },
    )
}

/// An optional page request as its model.
pub open spec fn opt_page_request_view(o: Option<PageRequest>) -> Option<PageRequestModel> {
    match o {
        Some(p) => Some(p@),
        None => None,
    }
}

impl PageRequest {
    /// The wire shape of this request.
    pub fn encode(&self) -> (w: WireValue)
        ensures
            is_page_request_wire(self@, w),
    {
        let mut fs: Vec<WireField> = Vec::new();
        let ghost mut rules: Seq<FieldRule> = Seq::empty();
        match &self.key {
            Some(k) => {
                let b = k.clone();
                assert(b@ =~= k@);
                push_field(
                    &mut fs,
                    Ghost(rules),
                    field("key", WireValue::Bytes(b)),
                    Ghost(bytes_rule("key"@, k@)),
                );
                proof {
                    rules = rules.push(bytes_rule("key"@, k@));
                }
            },
            None => {},
        }
        push_field(
            &mut fs,
            Ghost(rules),
            field("limit", WireValue::Quoted(self.limit)),
            Ghost(quoted_rule("limit"@, self.limit)),
        );
        proof {
            rules = rules.push(quoted_rule("limit"@, self.limit));
        }
        push_opt_quoted(&mut fs, Ghost(rules), "offset", self.offset);
        proof {
            rules = rules + opt_quoted_rule("offset"@, self.offset);
        }
        push_field(
            &mut fs,
            Ghost(rules),
            field("count_total", WireValue::Bool(self.count_total)),
            Ghost(bool_rule("count_total"@, self.count_total)),
        );
        proof {
            rules = rules.push(bool_rule("count_total"@, self.count_total));
        }
        push_field(
            &mut fs,
            Ghost(rules),
            field("reverse", WireValue::Bool(self.reverse)),
            Ghost(bool_rule("reverse"@, self.reverse)),
        );
        proof {
            rules = rules.push(bool_rule("reverse"@, self.reverse));
        }
        assert(rules =~= page_request_rules(self@));
        WireValue::Object(fs)
    }
}

/// Appends an optional page request field when it is set.
pub fn push_opt_page_request(
    fs: &mut Vec<WireField>,
    Ghost(rules): Ghost<Seq<FieldRule>>,
    key: &str,
    o: &Option<PageRequest>,
)
    requires
        fields_follow(old(fs)@, rules),
    ensures
        fields_follow(final(fs)@, rules + opt_page_request_rule(key@, opt_page_request_view(*o))),
{
    match o {
        Some(p) => {
            let ghost rule: FieldRule = (key@, |w: WireValue| is_page_request_wire(p@, w));
            push_field(fs, Ghost(rules), field(key, p.encode()), Ghost(rule));
            assert(rules.push(rule) =~= rules + opt_page_request_rule(key@, opt_page_request_view(*o)));
        },
        None => {
            assert(rules =~= rules + opt_page_request_rule(key@, opt_page_request_view(*o)));
        },
    }
}

/// Where a returned page leaves off.
#[derive(PartialEq, Eq, Debug)]
pub struct PageResponse {
    /// The key of the next page; `None` on the last page.
    pub next_key: Option<Vec<u8>>,
    pub total: Option<u64>,
}

/// The mathematical value of a [`PageResponse`].
pub struct PageModel {
    pub next_key: Option<Seq<u8>>,
    pub total: Option<u64>,
}

impl View for PageResponse {
    type V = PageModel;

    open spec fn view(&self) -> PageModel {
        PageModel {
            next_key: match self.next_key {
                Some(k) => Some(k@),
                None => None,
            },
            total: self.total,
        }
    }
}

/// The keys of a page response: only the fields that are set.
pub open spec fn page_keys(m: PageModel) -> Seq<Seq<char>> {
    (if m.next_key is Some {
        seq!["next_key"@]
    } else {
        Seq::empty()
    }) + (if m.total is Some {
        seq!["total"@]
    } else {
        Seq::empty()
    })
}

/// The bytes that a standard base64 text writes, if it is valid base64.
pub uninterp spec fn base64_decoded(s: Seq<char>) -> Option<Seq<u8>>;

/// Relies on cosmwasm_std::Binary::from_base64: decodes standard base64,
/// with or without padding, and fails on any other text; the result depends
/// on the text alone.
#[verifier::external_body]
fn from_base64(t: &String) -> (r: Option<Vec<u8>>)
    ensures
        match r {
            Some(b) => base64_decoded(t@) == Some(b@),
            None => base64_decoded(t@) is None,
        },
{
    match cosmwasm_std::Binary::from_base64(t.as_str()) {
        Ok(b) => Some(b.0),
        Err(_) => None,
    }
}

/// An optional key: absent or null is `None`; the chain writes it as base64 text.
pub open spec fn opt_bytes_of(f: Option<WireValue>) -> Result<Option<Seq<u8>>, DecodeError> {
    match f {
        None => Ok(None),
        Some(WireValue::Null) => Ok(None),
        Some(WireValue::Bytes(b)) => Ok(Some(b@)),
        Some(WireValue::Text(t)) => match base64_decoded(t@) {
            Some(b) => Ok(Some(b)),
            None => Err(DecodeError::MalformedValue),
        },
        Some(_) => Err(DecodeError::MalformedValue),
    }
}

/// An optional count: absent or null is `None`.
pub open spec fn opt_quoted_of(f: Option<WireValue>) -> Result<Option<u64>, DecodeError> {
    match f {
        None => Ok(None),
        Some(WireValue::Null) => Ok(None),
        Some(WireValue::Quoted(n)) => Ok(Some(n)),
        Some(WireValue::Text(t)) => match decimal_of(t@) {
            Ok(n) => Ok(Some(n)),
            Err(e) => Err(e),
        },
        Some(_) => Err(DecodeError::MalformedValue),
    }
}

/// What decoding a wire value as a page response gives.
pub open spec fn decode_page_spec(w: WireValue) -> Result<PageModel, DecodeError> {
    match w {
        WireValue::Object(fs) => match opt_bytes_of(find_field(fs@, "next_key"@)) {
            Err(e) => Err(e),
            Ok(next_key) => match opt_quoted_of(find_field(fs@, "total"@)) {
                Err(e) => Err(e),
                Ok(total) => Ok(PageModel { next_key, total }),
            },
        },
        _ => Err(DecodeError::MalformedValue),
    }
}

/// The single wire shape of a page response: the fields that are set, in order.
pub open spec fn is_page_wire(m: PageModel, w: WireValue) -> bool {
    &&& w matches WireValue::Object(fs)
    &&& keys_are(fs@, page_keys(m))
    &&& m.next_key matches Some(k) ==> fs@[0].value matches WireValue::Bytes(b) && b@ == k
    &&& m.total matches Some(t) ==> fs@[fs@.len() - 1].value == WireValue::Quoted(t)
}

/// Decoding the wire shape of a page response gives it back.
pub proof fn lemma_page_round_trip(m: PageModel, w: WireValue)
    requires
        is_page_wire(m, w),
    ensures
        decode_page_spec(w) == Ok::<PageModel, DecodeError>(m),
{
    reveal_strlit("next_key");
    reveal_strlit("total");
    let fs = w->Object_0@;
    let ks = page_keys(m);
    assert("next_key"@[0] != "total"@[0]);
    if m.next_key is Some {
        if m.total is Some {
            assert(ks[0] != ks[1]);
            lemma_find_keyed(fs, ks, 0);
            lemma_find_keyed(fs, ks, 1);
        } else {
            lemma_find_keyed(fs, ks, 0);
            assert(!ks.contains("total"@)) by {
                assert(ks =~= seq!["next_key"@]);
            }
            lemma_find_absent(fs, ks, "total"@);
        }
    } else {
        if m.total is Some {
            lemma_find_keyed(fs, ks, 0);
            assert(!ks.contains("next_key"@)) by {
                assert(ks =~= seq!["total"@]);
            }
            lemma_find_absent(fs, ks, "next_key"@);
        } else {
            lemma_find_absent(fs, ks, "next_key"@);
            lemma_find_absent(fs, ks, "total"@);
        }
    }
}

impl PageResponse {
    /// Whether another page follows this one.
    pub fn has_next(&self) -> (r: bool)
        ensures
            r == (self.next_key is Some),
    {
        self.next_key.is_some()
    }
}

/// Where the page of a list of `len` records that starts at `start` and holds
/// at most `limit` records ends.
pub open spec fn page_end(len: int, start: int, limit: int) -> int {
    if start + limit < len {
        start + limit
    } else {
        len
    }
}

/// How many pages a client reads, following each page to the next, from
/// `start` until a page comes with no next one.
pub open spec fn pages_until_end(len: int, start: int, limit: int) -> nat
    decreases len - start,
    when limit > 0 && start <= len
{
    if page_end(len, start, limit) >= len {
        1
    } else {
        1 + pages_until_end(len, page_end(len, start, limit), limit)
    }
}

/// Following pages ends: from any start, at most one page per record left
/// (one page when none is left), and at least one page.
pub proof fn lemma_paging_terminates(len: int, start: int, limit: int)
    requires
        0 <= start <= len,
        limit > 0,
    ensures
        1 <= pages_until_end(len, start, limit),
        pages_until_end(len, start, limit) <= if start < len {
            len - start
        } else {
            1
        },
    decreases len - start,
{
    if page_end(len, start, limit) < len {
        lemma_paging_terminates(len, page_end(len, start, limit), limit);
    }
}

/// The page of a list of `len` records that starts at `start` and holds at
/// most `limit`: where it ends, and where the next page starts, which is
/// absent on the last page.
pub fn next_page(len: u64, start: u64, limit: u64) -> (r: (u64, Option<u64>))
    requires
        start <= len,
        limit > 0,
    ensures
        r.0 == page_end(len as int, start as int, limit as int),
        r.1 == if r.0 < len {
            Some(r.0)
        } else {
            None::<u64>
        },
{
    let end = if limit < len - start {
        start + limit
    } else {
        len
    };
    if end < len {
        (end, Some(end))
    } else {
        (end, None)
    }
}

/// Reads a list of `len` records page by page, following each page to the
/// next, and returns how many pages it took.
pub fn count_pages(len: u64, limit: u64) -> (n: u64)
    requires
        limit > 0,
    ensures
        n == pages_until_end(len as int, 0, limit as int),
{
    let mut start: u64 = 0;
    let mut n: u64 = 0;
    proof {
        lemma_paging_terminates(len as int, 0, limit as int);
    }
    loop
        invariant
            start <= len,
            limit > 0,
            n + pages_until_end(len as int, start as int, limit as int) == pages_until_end(
                len as int,
                0,
                limit as int,
            ),
            pages_until_end(len as int, 0, limit as int) <= if 0 < len {
                len as int
            } else {
                1
            },
        decreases len - start,
    {
        let (end, next) = next_page(len, start, limit);
        proof {
            lemma_paging_terminates(len as int, start as int, limit as int);
        }
        n = n + 1;
        match next {
            None => {
                return n;
            },
            Some(s) => {
                start = s;
            },
        }
    }
}

impl WireCodec for PageResponse {
    open spec fn decoder() -> spec_fn(WireValue) -> Result<PageModel, DecodeError> {
        |w: WireValue| decode_page_spec(w)
    }

    open spec fn is_wire(m: PageModel, w: WireValue) -> bool {
        is_page_wire(m, w)
    }

    fn encode(&self) -> (w: WireValue) {
        let mut fs: Vec<WireField> = Vec::new();
        match &self.next_key {
            Some(k) => {
                let b = k.clone();
                assert(b@ =~= k@);
                fs.push(field("next_key", WireValue::Bytes(b)));
            },
            None => {},
        }
        match self.total {
            Some(t) => fs.push(field("total", WireValue::Quoted(t))),
            None => {},
        }
        let w = WireValue::Object(fs);
        proof {
            reveal_strlit("next_key");
            reveal_strlit("total");
            assert(keys_are(fs@, page_keys(self@)));
            lemma_page_round_trip(self@, w);
        }
        w
    }

    fn decode(w: &WireValue) -> (r: Result<PageResponse, DecodeError>) {
        match w {
            WireValue::Object(fs) => {
                let next_key = match lookup(fs, "next_key") {
                    None => None,
                    Some(WireValue::Null) => None,
                    Some(WireValue::Bytes(b)) => {
                        let k = b.clone();
                        assert(k@ =~= b@);
                        Some(k)
                    },
                    Some(WireValue::Text(t)) => match from_base64(t) {
                        Some(k) => Some(k),
                        None => return Err(DecodeError::MalformedValue),
                    },
                    Some(_) => return Err(DecodeError::MalformedValue),
                };
                let total = match lookup(fs, "total") {
                    None => None,
                    Some(WireValue::Null) => None,
                    Some(WireValue::Quoted(n)) => Some(*n),
                    Some(WireValue::Text(t)) => match parse_decimal(t) {
                        Ok(n) => Some(n),
                        Err(e) => return Err(e),
                    },
                    Some(_) => return Err(DecodeError::MalformedValue),
                };
                Ok(PageResponse { next_key, total })
            },
            _ => Err(DecodeError::MalformedValue),
        }
    }

    proof fn lemma_wire_round_trip(m: PageModel, w: WireValue) {
        lemma_page_round_trip(m, w);
    }
}

/// An optional page response as its model.
pub open spec fn opt_page_view(p: Option<PageResponse>) -> Option<PageModel> {
    match p {
        Some(p) => Some(p@),
        None => None,
    }
}

/// An optional page response: absent or null is `None`.
pub open spec fn opt_page_of(f: Option<WireValue>) -> Result<Option<PageModel>, DecodeError> {
    match f {
        None => Ok(None),
        Some(WireValue::Null) => Ok(None),
        Some(w) => match decode_page_spec(w) {
            Ok(p) => Ok(Some(p)),
            Err(e) => Err(e),
        },
    }
}

/// The keys of a list response whose list stands under `key`.
pub open spec fn paged_keys(key: Seq<char>, has_page: bool) -> Seq<Seq<char>> {
    if has_page {
        seq![key, "pagination"@]
    } else {
        seq![key]
    }
}

/// The single wire shape of a list response: the list under `key`, then the
/// page response when there is one.
pub open spec fn is_paged_wire<T: WireCodec>(
    key: Seq<char>,
    items: Seq<<T as View>::V>,
    page: Option<PageModel>,
    w: WireValue,
) -> bool {
    &&& w matches WireValue::Object(fs)
    &&& keys_are(fs@, paged_keys(key, page is Some))
    &&& is_list_wire::<T>(items, fs@[0].value)
    &&& page matches Some(p) ==> is_page_wire(p, fs@[1].value)
}

/// What decoding a wire value as a list response gives.
pub open spec fn decode_paged_spec<T: WireCodec>(key: Seq<char>, w: WireValue) -> Result<
    (Seq<<T as View>::V>, Option<PageModel>),
    DecodeError,
> {
    match w {
        WireValue::Object(fs) => match find_field(fs@, key) {
            None => Err(DecodeError::MissingField),
            Some(l) => match decode_list_spec::<T>(l) {
                Err(e) => Err(e),
                Ok(items) => match opt_page_of(find_field(fs@, "pagination"@)) {
                    Err(e) => Err(e),
                    Ok(page) => Ok((items, page)),
                },
            },
        },
        _ => Err(DecodeError::MalformedValue),
    }
}

/// Decoding the wire shape of a list response gives it back.
pub proof fn lemma_paged_round_trip<T: WireCodec>(
    key: Seq<char>,
    items: Seq<<T as View>::V>,
    page: Option<PageModel>,
    w: WireValue,
)
    requires
        key != "pagination"@,
        is_paged_wire::<T>(key, items, page, w),
    ensures
        decode_paged_spec::<T>(key, w) == Ok::<(Seq<<T as View>::V>, Option<PageModel>), DecodeError>(
            (items, page),
        ),
{
    let fs = w->Object_0@;
    let ks = paged_keys(key, page is Some);
    lemma_find_keyed(fs, ks, 0);
    lemma_list_round_trip::<T>(items, fs[0].value);
    match page {
        Some(p) => {
            lemma_find_keyed(fs, ks, 1);
            lemma_page_round_trip(p, fs[1].value);
        },
        None => {
            lemma_find_absent(fs, ks, "pagination"@);
        },
    }
}

/// The wire shape of a list response.
pub fn encode_paged<T: WireCodec>(key: &str, items: &Vec<T>, page: &Option<PageResponse>) -> (w:
    WireValue)
    requires
        key@ != "pagination"@,
    ensures
        is_paged_wire::<T>(key@, list_view(items@), opt_page_view(*page), w),
        decode_paged_spec::<T>(key@, w) == Ok::<
            (Seq<<T as View>::V>, Option<PageModel>),
            DecodeError,
        >((list_view(items@), opt_page_view(*page))),
{
    let mut fs: Vec<WireField> = Vec::new();
    fs.push(field(key, encode_list(items)));
    match page {
        Some(p) => fs.push(field("pagination", p.encode())),
        None => {},
    }
    let w = WireValue::Object(fs);
    proof {
        assert(keys_are(fs@, paged_keys(key@, page is Some)));
        lemma_paged_round_trip::<T>(key@, list_view(items@), opt_page_view(*page), w);
    }
    w
}

/// Reads a list response whose list stands under `key`.
pub fn decode_paged<T: WireCodec>(key: &str, w: &WireValue) -> (r: Result<
    (Vec<T>, Option<PageResponse>),
    DecodeError,
>)
    ensures
        match r {
            Ok((v, p)) => decode_paged_spec::<T>(key@, *w) == Ok::<
                (Seq<<T as View>::V>, Option<PageModel>),
                DecodeError,
            >((list_view(v@), opt_page_view(p))),
            Err(e) => decode_paged_spec::<T>(key@, *w) == Err::<
                (Seq<<T as View>::V>, Option<PageModel>),
                DecodeError,
            >(e),
        },
{
    let fs = match w {
        WireValue::Object(fs) => fs,
        _ => return Err(DecodeError::MalformedValue),
    };
    let items = match lookup(fs, key) {
        None => return Err(DecodeError::MissingField),
        Some(l) => match decode_list::<T>(l) {
            Ok(v) => v,
            Err(e) => return Err(e),
        },
    };
    let page = match lookup(fs, "pagination") {
        None => None,
        Some(WireValue::Null) => None,
        Some(p) => match PageResponse::decode(p) {
            Ok(p) => Some(p),
            Err(e) => return Err(e),
        },
    };
    Ok((items, page))
}

/// The single wire shape of a response that carries one record under `key`.
pub open spec fn is_single_wire<T: WireCodec>(key: Seq<char>, m: <T as View>::V, w: WireValue) -> bool {
    &&& w matches WireValue::Object(fs)
    &&& keys_are(fs@, seq![key])
    &&& T::is_wire(m, fs@[0].value)
}

/// What decoding a wire value as a one-record response gives.
pub open spec fn decode_single_spec<T: WireCodec>(key: Seq<char>, w: WireValue) -> Result<
    <T as View>::V,
    DecodeError,
> {
    match w {
        WireValue::Object(fs) => match find_field(fs@, key) {
            None => Err(DecodeError::MissingField),
            Some(x) => (T::decoder())(x),
        },
        _ => Err(DecodeError::MalformedValue),
    }
}

/// The wire shape of a one-record response.
pub fn encode_single<T: WireCodec>(key: &str, item: &T) -> (w: WireValue)
    ensures
        is_single_wire::<T>(key@, item@, w),
        decode_single_spec::<T>(key@, w) == Ok::<<T as View>::V, DecodeError>(item@),
{
    let mut fs: Vec<WireField> = Vec::new();
    fs.push(field(key, item.encode()));
    let w = WireValue::Object(fs);
    proof {
        assert(keys_are(fs@, seq![key@]));
        lemma_find_keyed(fs@, seq![key@], 0);
    }
    w
}

/// Reads a one-record response.
pub fn decode_single<T: WireCodec>(key: &str, w: &WireValue) -> (r: Result<T, DecodeError>)
    ensures
        view_result(r) == decode_single_spec::<T>(key@, *w),
{
    match w {
        WireValue::Object(fs) => match lookup(fs, key) {
            None => Err(DecodeError::MissingField),
            Some(x) => T::decode(x),
        },
        _ => Err(DecodeError::MalformedValue),
    }
}

} // verus!
