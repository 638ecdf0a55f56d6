//! The reports module: report targets, reports, reasons, their queries and mocks.
use vstd::prelude::*;
use vstd::string::*;
use crate::types::{
    decode_paged, decode_paged_spec, decode_single, decode_single_spec, encode_paged, encode_single,
    is_paged_wire, is_single_wire, opt_page_request_rule, opt_page_request_view, opt_page_view,
    push_opt_page_request, PageModel, PageRequest, PageResponse,
};
use crate::wire::{
    codec_rule, contains_field, decode_list, decode_list_spec, encode_list, envelope, field,
    fields_follow, find_field, has_field, is_envelope_wire, is_list_wire, is_text_field, key_count,
    keys_are, lemma_decode_all_item_err, lemma_find_absent, lemma_find_at, lemma_find_keyed,
    lemma_find_none, lemma_key_count_one, lemma_list_round_trip, list_view, lookup, number_rule,
    opt_rule, opt_text_of, opt_text_rule, opt_view, push_field, push_opt_text, quoted_of,
    quoted_rule, read_opt_text, read_quoted, read_tag, read_text, read_u32, tag_of, text_is,
    text_of, u32_of, DecodeError, FieldRule, TYPE_KEY, WireCodec, WireField, WireValue,
};

verus! {

/// Type tag of a report on a user.
pub const USER_TARGET_TAG: &'static str = "/desmos.reports.v1.UserTarget";

/// Type tag of a report on a post.
pub const POST_TARGET_TAG: &'static str = "/desmos.reports.v1.PostTarget";

/// What a report is about.
#[derive(PartialEq, Eq, Debug)]
pub enum ReportTarget {
    User { user: String },
    Post { post_id: u64 },
}

/// The mathematical value of a [`ReportTarget`].
pub enum ReportTargetModel {
    User { user: Seq<char> },
    Post { post_id: u64 },
}

impl View for ReportTarget {
    type V = ReportTargetModel;

    open spec fn view(&self) -> ReportTargetModel {
        match self {
            ReportTarget::User { user } => ReportTargetModel::User { user: user@ },
            ReportTarget::Post { post_id } => ReportTargetModel::Post { post_id: *post_id },
        }
    }
}

/// The single wire shape of each target: the tag, then the variant's field.
pub open spec fn is_target_wire(m: ReportTargetModel, w: WireValue) -> bool {
    &&& w matches WireValue::Object(fs)
    &&& fs@.len() == 2
    &&& match m {
        ReportTargetModel::User { user } => {
            &&& is_text_field(fs@[0], TYPE_KEY@, USER_TARGET_TAG@)
            &&& is_text_field(fs@[1], "user"@, user)
        },
        ReportTargetModel::Post { post_id } => {
            &&& is_text_field(fs@[0], TYPE_KEY@, POST_TARGET_TAG@)
            &&& fs@[1].key@ == "post_id"@
            &&& fs@[1].value == WireValue::Quoted(post_id)
        },
    }
}

/// What decoding a wire value as a target gives.
pub open spec fn decode_target_spec(w: WireValue) -> Result<ReportTargetModel, DecodeError> {
    match w {
        WireValue::Object(fs) => match tag_of(fs@) {
            Err(e) => Err(e),
            Ok(t) => if t == USER_TARGET_TAG@ {
                if has_field(fs@, "post_id"@) {
                    Err(DecodeError::AmbiguousPayload)
                } else {
                    match text_of(find_field(fs@, "user"@)) {
                        Ok(user) => Ok(ReportTargetModel::User { user }),
                        Err(e) => Err(e),
                    }
                }
            } else if t == POST_TARGET_TAG@ {
                if has_field(fs@, "user"@) {
                    Err(DecodeError::AmbiguousPayload)
                } else {
                    match quoted_of(find_field(fs@, "post_id"@)) {
                        Ok(post_id) => Ok(ReportTargetModel::Post { post_id }),
                        Err(e) => Err(e),
                    }
                }
            } else {
                Err(DecodeError::UnknownDiscriminator)
            },
        },
        _ => Err(DecodeError::MalformedValue),
    }
}

/// Decoding the wire shape of a target gives the target back.
pub proof fn lemma_target_round_trip(m: ReportTargetModel, w: WireValue)
    requires
        is_target_wire(m, w),
    ensures
        decode_target_spec(w) == Ok::<ReportTargetModel, DecodeError>(m),
{
    reveal_strlit("@type");
    reveal_strlit("user");
    reveal_strlit("post_id");
    reveal_strlit("/desmos.reports.v1.UserTarget");
    reveal_strlit("/desmos.reports.v1.PostTarget");
    let fs = w->Object_0@;
    assert(TYPE_KEY@[0] != "user"@[0]);
    assert(TYPE_KEY@[0] != "post_id"@[0]);
    assert("user"@[0] != "post_id"@[0]);
    assert(USER_TARGET_TAG@[19] != POST_TARGET_TAG@[19]);
    lemma_find_at(fs, TYPE_KEY@, 0);
    match m {
        ReportTargetModel::User { user } => {
            lemma_find_at(fs, "user"@, 1);
            lemma_find_none(fs, "post_id"@);
            lemma_key_count_one(fs, TYPE_KEY@, 0);
        },
        ReportTargetModel::Post { post_id } => {
            lemma_find_at(fs, "post_id"@, 1);
            lemma_find_none(fs, "user"@);
            lemma_key_count_one(fs, TYPE_KEY@, 0);
        },
    }
}

/// A tag outside the known set is rejected as unknown, never read as a variant.
pub proof fn lemma_target_unknown_tag(w: WireValue)
    requires
        w matches WireValue::Object(fs) && tag_of(fs@) matches Ok(t) && t != USER_TARGET_TAG@ && t
            != POST_TARGET_TAG@,
    ensures
        decode_target_spec(w) == Err::<ReportTargetModel, DecodeError>(
            DecodeError::UnknownDiscriminator,
        ),
{
}

/// An object with a known tag and fields of both variants is rejected as ambiguous.
pub proof fn lemma_target_ambiguous(w: WireValue)
    requires
        w matches WireValue::Object(fs) && tag_of(fs@) matches Ok(t) && (t == USER_TARGET_TAG@
            || t == POST_TARGET_TAG@) && has_field(fs@, "user"@) && has_field(fs@, "post_id"@),
    ensures
        decode_target_spec(w) == Err::<ReportTargetModel, DecodeError>(
            DecodeError::AmbiguousPayload,
        ),
{
}

/// An object with more than one type tag is rejected as ambiguous.
pub proof fn lemma_target_two_tags(w: WireValue)
    requires
        w matches WireValue::Object(fs) && key_count(fs@, TYPE_KEY@) > 1,
    ensures
        decode_target_spec(w) == Err::<ReportTargetModel, DecodeError>(
            DecodeError::AmbiguousPayload,
        ),
{
}

impl WireCodec for ReportTarget {
    open spec fn decoder() -> spec_fn(WireValue) -> Result<ReportTargetModel, DecodeError> {
        |w: WireValue| decode_target_spec(w)
    }

    open spec fn is_wire(m: ReportTargetModel, w: WireValue) -> bool {
        is_target_wire(m, w)
    }

    fn encode(&self) -> (w: WireValue) {
        let mut fs: Vec<WireField> = Vec::new();
        match self {
            ReportTarget::User { user } => {
                fs.push(field(TYPE_KEY, WireValue::Text(String::from_str(USER_TARGET_TAG))));
                fs.push(field("user", WireValue::Text(user.clone())));
            },
            ReportTarget::Post { post_id } => {
                fs.push(field(TYPE_KEY, WireValue::Text(String::from_str(POST_TARGET_TAG))));
                fs.push(field("post_id", WireValue::Quoted(*post_id)));
            },
        }
        let w = WireValue::Object(fs);
        proof {
            lemma_target_round_trip(self@, w);
        }
        w
    }

    fn decode(w: &WireValue) -> (r: Result<ReportTarget, DecodeError>) {
        match w {
            WireValue::Object(fs) => {
                let tag = match read_tag(fs) {
                    Ok(t) => t,
                    Err(e) => return Err(e),
                };
                if text_is(&tag, USER_TARGET_TAG) {
                    if contains_field(fs, "post_id") {
                        return Err(DecodeError::AmbiguousPayload);
                    }
                    match read_text(fs, "user") {
                        Ok(user) => Ok(ReportTarget::User { user }),
                        Err(e) => Err(e),
                    }
                } else if text_is(&tag, POST_TARGET_TAG) {
                    if contains_field(fs, "user") {
                        return Err(DecodeError::AmbiguousPayload);
                    }
                    match read_quoted(fs, "post_id") {
                        Ok(post_id) => Ok(ReportTarget::Post { post_id }),
                        Err(e) => Err(e),
                    }
                } else {
                    Err(DecodeError::UnknownDiscriminator)
                }
            },
            _ => Err(DecodeError::MalformedValue),
        }
    }

    proof fn lemma_wire_round_trip(m: ReportTargetModel, w: WireValue) {
        lemma_target_round_trip(m, w);
    }
}

/// A report of a user or a post inside a subspace.
#[derive(PartialEq, Eq, Debug)]
pub struct Report {
    pub subspace_id: u64,
    pub id: u64,
    pub reasons_ids: Vec<u32>,
    pub message: Option<String>,
    pub reporter: String,
    pub target: ReportTarget,
    pub creation_date: String,
}

/// The mathematical value of a [`Report`].
pub struct ReportModel {
    pub subspace_id: u64,
    pub id: u64,
    pub reasons_ids: Seq<u32>,
    pub message: Option<Seq<char>>,
    pub reporter: Seq<char>,
    pub target: ReportTargetModel,
    pub creation_date: Seq<char>,
}

impl View for Report {
    type V = ReportModel;

    open spec fn view(&self) -> ReportModel {
        ReportModel {
            subspace_id: self.subspace_id,
            id: self.id,
            reasons_ids: self.reasons_ids@,
            message: opt_view(self.message),
            reporter: self.reporter@,
            target: self.target@,
            creation_date: self.creation_date@,
        }
    }
}

/// The keys of a report in wire order; the message only when it is set.
pub open spec fn report_keys(has_message: bool) -> Seq<Seq<char>> {
    seq!["subspace_id"@, "id"@, "reasons_ids"@] + (if has_message {
        seq!["message"@]
    } else {
        Seq::empty()
    }) + seq!["reporter"@, "target"@, "creation_date"@]
}

/// The single wire shape of a report: its keys in order, each with its value.
pub open spec fn is_report_wire(m: ReportModel, w: WireValue) -> bool {
    &&& w matches WireValue::Object(fs)
    &&& keys_are(fs@, report_keys(m.message is Some))
    &&& find_field(fs@, "subspace_id"@) == Some(WireValue::Quoted(m.subspace_id))
    &&& find_field(fs@, "id"@) == Some(WireValue::Quoted(m.id))
    &&& find_field(fs@, "reasons_ids"@) matches Some(l) && is_list_wire::<u32>(m.reasons_ids, l)
    &&& m.message matches Some(t) ==> find_field(fs@, "message"@) matches Some(WireValue::Text(s))
        && s@ == t
    &&& find_field(fs@, "reporter"@) matches Some(WireValue::Text(s)) && s@ == m.reporter
    &&& find_field(fs@, "target"@) matches Some(x) && is_target_wire(m.target, x)
    &&& find_field(fs@, "creation_date"@) matches Some(WireValue::Text(s)) && s@ == m.creation_date
}

/// A required list of reason ids.
pub open spec fn reasons_ids_of(f: Option<WireValue>) -> Result<Seq<u32>, DecodeError> {
    match f {
        None => Err(DecodeError::MissingField),
        Some(l) => decode_list_spec::<u32>(l),
    }
}

/// A required target.
pub open spec fn target_of(f: Option<WireValue>) -> Result<ReportTargetModel, DecodeError> {
    match f {
        None => Err(DecodeError::MissingField),
        Some(x) => decode_target_spec(x),
    }
}

/// What decoding a wire value as a report gives; fields are read in wire order.
pub open spec fn decode_report_spec(w: WireValue) -> Result<ReportModel, DecodeError> {
    match w {
        WireValue::Object(fs) => {
            let subspace_id = quoted_of(find_field(fs@, "subspace_id"@));
            let id = quoted_of(find_field(fs@, "id"@));
            let reasons_ids = reasons_ids_of(find_field(fs@, "reasons_ids"@));
            let message = opt_text_of(find_field(fs@, "message"@));
            let reporter = text_of(find_field(fs@, "reporter"@));
            let target = target_of(find_field(fs@, "target"@));
            let creation_date = text_of(find_field(fs@, "creation_date"@));
            if subspace_id is Err {
                Err(subspace_id->Err_0)
            } else if id is Err {
                Err(id->Err_0)
            } else if reasons_ids is Err {
                Err(reasons_ids->Err_0)
            } else if message is Err {
                Err(message->Err_0)
            } else if reporter is Err {
                Err(reporter->Err_0)
            } else if target is Err {
                Err(target->Err_0)
            } else if creation_date is Err {
                Err(creation_date->Err_0)
            } else {
                Ok(
                    ReportModel {
                        subspace_id: subspace_id->Ok_0,
                        id: id->Ok_0,
                        reasons_ids: reasons_ids->Ok_0,
                        message: message->Ok_0,
                        reporter: reporter->Ok_0,
                        target: target->Ok_0,
                        creation_date: creation_date->Ok_0,
                    },
                )
            }
        },
        _ => Err(DecodeError::MalformedValue),
    }
}

/// The report keys are distinct, and the message key stands among them only
/// when the message is set.
pub proof fn lemma_report_keys(has_message: bool)
    ensures
        report_keys(has_message).no_duplicates(),
        !has_message ==> !report_keys(has_message).contains("message"@),
{
    reveal_strlit("subspace_id");
    reveal_strlit("id");
    reveal_strlit("reasons_ids");
    reveal_strlit("message");
    reveal_strlit("reporter");
    reveal_strlit("target");
    reveal_strlit("creation_date");
    let ks = report_keys(has_message);
    assert("reasons_ids"@[2] != "reporter"@[2]);
    if has_message {
        assert(ks =~= seq![
            "subspace_id"@,
            "id"@,
            "reasons_ids"@,
            "message"@,
            "reporter"@,
            "target"@,
            "creation_date"@,
        ]);
        assert forall|i: int, j: int| 0 <= i < j < 7 implies ks[i] != ks[j] by {
            if !(i == 2 && j == 4) {
                assert(ks[i][0] != ks[j][0]);
            }
        }
    } else {
        assert(ks =~= seq![
            "subspace_id"@,
            "id"@,
            "reasons_ids"@,
            "reporter"@,
            "target"@,
            "creation_date"@,
        ]);
        assert forall|i: int, j: int| 0 <= i < j < 6 implies ks[i] != ks[j] by {
            if !(i == 2 && j == 3) {
                assert(ks[i][0] != ks[j][0]);
            }
        }
        assert forall|i: int| 0 <= i < 6 implies ks[i] != "message"@ by {
            assert(ks[i][0] != "message"@[0]);
        }
    }
}

/// Decoding the wire shape of a report gives the report back.
pub proof fn lemma_report_round_trip(m: ReportModel, w: WireValue)
    requires
        is_report_wire(m, w),
    ensures
        decode_report_spec(w) == Ok::<ReportModel, DecodeError>(m),
{
    let fs = w->Object_0@;
    lemma_report_keys(m.message is Some);
    if m.message is None {
        lemma_find_absent(fs, report_keys(false), "message"@);
    }
    lemma_list_round_trip::<u32>(m.reasons_ids, find_field(fs, "reasons_ids"@)->Some_0);
    lemma_target_round_trip(m.target, find_field(fs, "target"@)->Some_0);
}

/// The fields of a report that come before its target all read.
pub open spec fn report_head_reads(fs: Seq<WireField>) -> bool {
    &&& quoted_of(find_field(fs, "subspace_id"@)) is Ok
    &&& quoted_of(find_field(fs, "id"@)) is Ok
    &&& reasons_ids_of(find_field(fs, "reasons_ids"@)) is Ok
    &&& opt_text_of(find_field(fs, "message"@)) is Ok
    &&& text_of(find_field(fs, "reporter"@)) is Ok
}

/// A report whose target is rejected is rejected with the target's error:
/// its target is never read as another variant.
pub proof fn lemma_report_target_rejected(w: WireValue)
    requires
        w matches WireValue::Object(fs) && report_head_reads(fs@) && target_of(
            find_field(fs@, "target"@),
        ) is Err,
    ensures
        decode_report_spec(w) == Err::<ReportModel, DecodeError>(
            target_of(find_field(w->Object_0@, "target"@))->Err_0,
        ),
{
}

/// A one-report response whose report has a rejected target is rejected
/// with the target's error.
pub proof fn lemma_report_response_target_rejected(w: WireValue)
    requires
        w matches WireValue::Object(fs) && find_field(fs@, "report"@) matches Some(
            WireValue::Object(rf),
        ) && report_head_reads(rf@) && target_of(find_field(rf@, "target"@)) is Err,
    ensures
        decode_single_spec::<Report>("report"@, w) == Err::<ReportModel, DecodeError>(
            target_of(
                find_field(find_field(w->Object_0@, "report"@)->Some_0->Object_0@, "target"@),
            )->Err_0,
        ),
{
    lemma_report_target_rejected(find_field(w->Object_0@, "report"@)->Some_0);
}

/// A report list in which one report has a rejected target is rejected as a
/// whole: no report of it is read with a target of another variant.
pub proof fn lemma_reports_response_target_rejected(w: WireValue, i: int)
    requires
        w matches WireValue::Object(fs) && find_field(fs@, "reports"@) matches Some(
            WireValue::List(vs),
        ) && (0 <= i < vs@.len() && (vs@[i] matches WireValue::Object(rf) && report_head_reads(
            rf@,
        ) && target_of(find_field(rf@, "target"@)) is Err)),
    ensures
        decode_paged_spec::<Report>("reports"@, w) is Err,
{
    let vs = find_field(w->Object_0@, "reports"@)->Some_0->List_0@;
    lemma_report_target_rejected(vs[i]);
    lemma_decode_all_item_err(vs, Report::decoder(), i);
}

impl WireCodec for Report {
    open spec fn decoder() -> spec_fn(WireValue) -> Result<ReportModel, DecodeError> {
        |w: WireValue| decode_report_spec(w)
    }

    open spec fn is_wire(m: ReportModel, w: WireValue) -> bool {
        is_report_wire(m, w)
    }

    fn encode(&self) -> (w: WireValue) {
        let mut fs: Vec<WireField> = Vec::new();
        fs.push(field("subspace_id", WireValue::Quoted(self.subspace_id)));
        fs.push(field("id", WireValue::Quoted(self.id)));
        fs.push(field("reasons_ids", encode_list(&self.reasons_ids)));
        match &self.message {
            Some(t) => fs.push(field("message", WireValue::Text(t.clone()))),
            None => {},
        }
        fs.push(field("reporter", WireValue::Text(self.reporter.clone())));
        fs.push(field("target", self.target.encode()));
        fs.push(field("creation_date", WireValue::Text(self.creation_date.clone())));
        let w = WireValue::Object(fs);
        proof {
            let ks = report_keys(self.message is Some);
            assert(keys_are(fs@, ks));
            lemma_report_keys(self.message is Some);
            assert forall|i: int| 0 <= i < ks.len() implies find_field(fs@, #[trigger] ks[i])
                == Some(fs@[i].value) by {
                lemma_find_keyed(fs@, ks, i);
            }
            assert(list_view(self.reasons_ids@) =~= self.reasons_ids@);
            let o: int = if self.message is Some { 1 } else { 0 };
            assert(ks[0] == "subspace_id"@ && ks[1] == "id"@ && ks[2] == "reasons_ids"@);
            assert(ks[3 + o] == "reporter"@ && ks[4 + o] == "target"@ && ks[5 + o]
                == "creation_date"@);
            if self.message is Some {
                assert(ks[3] == "message"@);
            }
            lemma_report_round_trip(self@, w);
        }
        w
    }

    fn decode(w: &WireValue) -> (r: Result<Report, DecodeError>) {
        let fs = match w {
            WireValue::Object(fs) => fs,
            _ => return Err(DecodeError::MalformedValue),
        };
        let subspace_id = match read_quoted(fs, "subspace_id") {
            Ok(n) => n,
            Err(e) => return Err(e),
        };
        let id = match read_quoted(fs, "id") {
            Ok(n) => n,
            Err(e) => return Err(e),
        };
        let reasons_ids = match lookup(fs, "reasons_ids") {
            None => return Err(DecodeError::MissingField),
            Some(l) => match decode_list::<u32>(l) {
                Ok(v) => v,
                Err(e) => return Err(e),
            },
        };
        let message = match read_opt_text(fs, "message") {
            Ok(t) => t,
            Err(e) => return Err(e),
        };
        let reporter = match read_text(fs, "reporter") {
            Ok(t) => t,
            Err(e) => return Err(e),
        };
        let target = match lookup(fs, "target") {
            None => return Err(DecodeError::MissingField),
            Some(x) => match ReportTarget::decode(x) {
                Ok(t) => t,
                Err(e) => return Err(e),
            },
        };
        let creation_date = match read_text(fs, "creation_date") {
            Ok(t) => t,
            Err(e) => return Err(e),
        };
        assert(list_view(reasons_ids@) =~= reasons_ids@);
        Ok(Report { subspace_id, id, reasons_ids, message, reporter, target, creation_date })
    }

    proof fn lemma_wire_round_trip(m: ReportModel, w: WireValue) {
        lemma_report_round_trip(m, w);
    }
}

/// A reason that a subspace offers for reporting.
#[derive(PartialEq, Eq, Debug)]
pub struct Reason {
    pub subspace_id: u64,
    pub id: u32,
    pub title: String,
    pub description: Option<String>,
}

/// The mathematical value of a [`Reason`].
pub struct ReasonModel {
    pub subspace_id: u64,
    pub id: u32,
    pub title: Seq<char>,
    pub description: Option<Seq<char>>,
}

impl View for Reason {
    type V = ReasonModel;

    open spec fn view(&self) -> ReasonModel {
        ReasonModel {
            subspace_id: self.subspace_id,
            id: self.id,
            title: self.title@,
            description: opt_view(self.description),
        }
    }
}

/// The keys of a reason in wire order; the description only when it is set.
pub open spec fn reason_keys(has_description: bool) -> Seq<Seq<char>> {
    if has_description {
        seq!["subspace_id"@, "id"@, "title"@, "description"@]
    } else {
        seq!["subspace_id"@, "id"@, "title"@]
    }
}

/// The single wire shape of a reason.
pub open spec fn is_reason_wire(m: ReasonModel, w: WireValue) -> bool {
    &&& w matches WireValue::Object(fs)
    &&& keys_are(fs@, reason_keys(m.description is Some))
    &&& fs@[0].value == WireValue::Quoted(m.subspace_id)
    &&& fs@[1].value == WireValue::Number(m.id as u64)
    &&& is_text_field(fs@[2], "title"@, m.title)
    &&& m.description matches Some(d) ==> is_text_field(fs@[3], "description"@, d)
}

/// What decoding a wire value as a reason gives.
pub open spec fn decode_reason_spec(w: WireValue) -> Result<ReasonModel, DecodeError> {
    match w {
        WireValue::Object(fs) => match quoted_of(find_field(fs@, "subspace_id"@)) {
            Err(e) => Err(e),
            Ok(subspace_id) => match u32_of(find_field(fs@, "id"@)) {
                Err(e) => Err(e),
                Ok(id) => match text_of(find_field(fs@, "title"@)) {
                    Err(e) => Err(e),
                    Ok(title) => match opt_text_of(find_field(fs@, "description"@)) {
                        Err(e) => Err(e),
                        Ok(description) => Ok(ReasonModel { subspace_id, id, title, description }),
                    },
                },
            },
        },
        _ => Err(DecodeError::MalformedValue),
    }
}

/// Decoding the wire shape of a reason gives the reason back.
pub proof fn lemma_reason_round_trip(m: ReasonModel, w: WireValue)
    requires
        is_reason_wire(m, w),
    ensures
        decode_reason_spec(w) == Ok::<ReasonModel, DecodeError>(m),
{
    reveal_strlit("subspace_id");
    reveal_strlit("id");
    reveal_strlit("title");
    reveal_strlit("description");
    let fs = w->Object_0@;
    let ks = reason_keys(m.description is Some);
    assert forall|i: int, j: int| 0 <= i < j < ks.len() implies ks[i] != ks[j] by {
        assert(ks[i][0] != ks[j][0]);
    }
    lemma_find_keyed(fs, ks, 0);
    lemma_find_keyed(fs, ks, 1);
    lemma_find_keyed(fs, ks, 2);
    if m.description is Some {
        lemma_find_keyed(fs, ks, 3);
    } else {
        assert forall|i: int| 0 <= i < ks.len() implies ks[i] != "description"@ by {
            assert(ks[i][0] != "description"@[0]);
        }
        lemma_find_absent(fs, ks, "description"@);
    }
}

impl WireCodec for Reason {
    open spec fn decoder() -> spec_fn(WireValue) -> Result<ReasonModel, DecodeError> {
        |w: WireValue| decode_reason_spec(w)
    }

    open spec fn is_wire(m: ReasonModel, w: WireValue) -> bool {
        is_reason_wire(m, w)
    }

    fn encode(&self) -> (w: WireValue) {
        let mut fs: Vec<WireField> = Vec::new();
        fs.push(field("subspace_id", WireValue::Quoted(self.subspace_id)));
        fs.push(field("id", WireValue::Number(self.id as u64)));
        fs.push(field("title", WireValue::Text(self.title.clone())));
        match &self.description {
            Some(d) => fs.push(field("description", WireValue::Text(d.clone()))),
            None => {},
        }
        let w = WireValue::Object(fs);
        proof {
            assert(keys_are(fs@, reason_keys(self.description is Some)));
            lemma_reason_round_trip(self@, w);
        }
        w
    }

    fn decode(w: &WireValue) -> (r: Result<Reason, DecodeError>) {
        let fs = match w {
            WireValue::Object(fs) => fs,
            _ => return Err(DecodeError::MalformedValue),
        };
        let subspace_id = match read_quoted(fs, "subspace_id") {
            Ok(n) => n,
            Err(e) => return Err(e),
        };
        let id = match read_u32(fs, "id") {
            Ok(n) => n,
            Err(e) => return Err(e),
        };
        let title = match read_text(fs, "title") {
            Ok(t) => t,
            Err(e) => return Err(e),
        };
        match read_opt_text(fs, "description") {
            Ok(description) => Ok(Reason { subspace_id, id, title, description }),
            Err(e) => Err(e),
        }
    }

    proof fn lemma_wire_round_trip(m: ReasonModel, w: WireValue) {
        lemma_reason_round_trip(m, w);
    }
}

/// Query messages that can be sent to the reports module.
#[derive(PartialEq, Eq, Debug)]
pub enum ReportsQuery {
    /// The reports of a subspace. Response: [`QueryReportsResponse`].
    Reports {
        subspace_id: u64,
        target: Option<ReportTarget>,
        reporter: Option<String>,
        pagination: Option<PageRequest>,
    },
    /// One report. Response: [`QueryReportResponse`].
    Report { subspace_id: u64, report_id: u64 },
    /// The reasons of a subspace. Response: [`QueryReasonsResponse`].
    Reasons { subspace_id: u64, pagination: Option<PageRequest> },
    /// One reason. Response: [`QueryReasonResponse`].
    Reason { subspace_id: u64, reason_id: u32 },
}

/// An optional target field.
pub open spec fn opt_target_rule(key: Seq<char>, o: Option<ReportTarget>) -> Seq<FieldRule> {
    opt_rule(
        match o {
            Some(t) => Some(codec_rule::<ReportTarget>(key, t@)),
            None => None,
        },
    )
}

/// Appends an optional target field when it is set.
pub fn push_opt_target(
    fs: &mut Vec<WireField>,
    Ghost(rules): Ghost<Seq<FieldRule>>,
    key: &str,
    o: &Option<ReportTarget>,
)
    requires
        fields_follow(old(fs)@, rules),
    ensures
        fields_follow(final(fs)@, rules + opt_target_rule(key@, *o)),
{
    match o {
        Some(t) => {
            push_field(
                fs,
                Ghost(rules),
                field(key, t.encode()),
                Ghost(codec_rule::<ReportTarget>(key@, t@)),
            );
            assert(rules.push(codec_rule::<ReportTarget>(key@, t@)) =~= rules + opt_rule(
                Some(codec_rule::<ReportTarget>(key@, t@)),
            ));
        },
        None => {
            assert(rules =~= rules + opt_rule(None));
        },
    }
}

/// The chain's name of each reports query.
pub open spec fn reports_query_name(q: ReportsQuery) -> Seq<char> {
    match q {
        ReportsQuery::Reports { .. } => "reports"@,
        ReportsQuery::Report { .. } => "report"@,
        ReportsQuery::Reasons { .. } => "reasons"@,
        ReportsQuery::Reason { .. } => "reason"@,
    }
}

/// The fields of each reports query, in order; an unset optional field is left out.
pub open spec fn reports_query_rules(q: ReportsQuery) -> Seq<FieldRule> {
    match q {
        ReportsQuery::Reports { subspace_id, target, reporter, pagination } => {
            seq![quoted_rule("subspace_id"@, subspace_id)]
                + opt_target_rule("target"@, target)
                + opt_text_rule("reporter"@, opt_view(reporter))
                + opt_page_request_rule("pagination"@, opt_page_request_view(pagination))
        },
        ReportsQuery::Report { subspace_id, report_id } => {
            seq![quoted_rule("subspace_id"@, subspace_id)]
                + seq![quoted_rule("report_id"@, report_id)]
        },
        ReportsQuery::Reasons { subspace_id, pagination } => {
            seq![quoted_rule("subspace_id"@, subspace_id)]
                + opt_page_request_rule("pagination"@, opt_page_request_view(pagination))
        },
        ReportsQuery::Reason { subspace_id, reason_id } => {
            seq![quoted_rule("subspace_id"@, subspace_id)]
                + seq![number_rule("reason_id"@, reason_id as u64)]
        },
    }
}

impl ReportsQuery {
    /// The wire shape of this query: an object whose one key names the query
    /// and holds its fields.
    pub fn encode(&self) -> (w: WireValue)
        ensures
            is_envelope_wire(reports_query_name(*self), reports_query_rules(*self), w),
    {
        let mut fs: Vec<WireField> = Vec::new();
        let ghost mut r: Seq<FieldRule> = Seq::empty();
        let name = match self {
            ReportsQuery::Reports { subspace_id, target, reporter, pagination } => {
                push_field(
                    &mut fs,
                    Ghost(r),
                    field("subspace_id", WireValue::Quoted(*subspace_id)),
                    Ghost(quoted_rule("subspace_id"@, *subspace_id)),
                );
                proof {
                    r = r.push(quoted_rule("subspace_id"@, *subspace_id));
                }
                push_opt_target(&mut fs, Ghost(r), "target", target);
                proof {
                    r = r + opt_target_rule("target"@, *target);
                }
                push_opt_text(&mut fs, Ghost(r), "reporter", reporter);
                proof {
                    r = r + opt_text_rule("reporter"@, opt_view(*reporter));
                }
                push_opt_page_request(&mut fs, Ghost(r), "pagination", pagination);
                proof {
                    r = r
                        + opt_page_request_rule("pagination"@, opt_page_request_view(*pagination));
                }
                "reports"
            },
            ReportsQuery::Report { subspace_id, report_id } => {
                push_field(
                    &mut fs,
                    Ghost(r),
                    field("subspace_id", WireValue::Quoted(*subspace_id)),
                    Ghost(quoted_rule("subspace_id"@, *subspace_id)),
                );
                proof {
                    r = r.push(quoted_rule("subspace_id"@, *subspace_id));
                }
                push_field(
                    &mut fs,
                    Ghost(r),
                    field("report_id", WireValue::Quoted(*report_id)),
                    Ghost(quoted_rule("report_id"@, *report_id)),
                );
                proof {
                    r = r.push(quoted_rule("report_id"@, *report_id));
                }
                "report"
            },
            ReportsQuery::Reasons { subspace_id, pagination } => {
                push_field(
                    &mut fs,
                    Ghost(r),
                    field("subspace_id", WireValue::Quoted(*subspace_id)),
                    Ghost(quoted_rule("subspace_id"@, *subspace_id)),
                );
                proof {
                    r = r.push(quoted_rule("subspace_id"@, *subspace_id));
                }
                push_opt_page_request(&mut fs, Ghost(r), "pagination", pagination);
                proof {
                    r = r
                        + opt_page_request_rule("pagination"@, opt_page_request_view(*pagination));
                }
                "reasons"
            },
            ReportsQuery::Reason { subspace_id, reason_id } => {
                push_field(
                    &mut fs,
                    Ghost(r),
                    field("subspace_id", WireValue::Quoted(*subspace_id)),
                    Ghost(quoted_rule("subspace_id"@, *subspace_id)),
                );
                proof {
                    r = r.push(quoted_rule("subspace_id"@, *subspace_id));
                }
                push_field(
                    &mut fs,
                    Ghost(r),
                    field("reason_id", WireValue::Number(*reason_id as u64)),
                    Ghost(number_rule("reason_id"@, *reason_id as u64)),
                );
                proof {
                    r = r.push(number_rule("reason_id"@, *reason_id as u64));
                }
                "reason"
            },
        };
        assert(r =~= reports_query_rules(*self));
        envelope(name, fs)
    }
}

/// The answer to [`ReportsQuery::Reports`].
#[derive(PartialEq, Eq, Debug)]
pub struct QueryReportsResponse {
    pub reports: Vec<Report>,
    pub pagination: Option<PageResponse>,
}

/// The answer to [`ReportsQuery::Report`].
#[derive(PartialEq, Eq, Debug)]
pub struct QueryReportResponse {
    pub report: Report,
}

/// The answer to [`ReportsQuery::Reasons`].
#[derive(PartialEq, Eq, Debug)]
pub struct QueryReasonsResponse {
    pub reasons: Vec<Reason>,
    pub pagination: Option<PageResponse>,
}

/// The answer to [`ReportsQuery::Reason`].
#[derive(PartialEq, Eq, Debug)]
pub struct QueryReasonResponse {
    pub reason: Reason,
}

impl QueryReportsResponse {
    /// The wire shape of this response; decoding it gives the response back.
    pub fn encode(&self) -> (w: WireValue)
        ensures
            is_paged_wire::<Report>(
                "reports"@,
                list_view(self.reports@),
                opt_page_view(self.pagination),
                w,
            ),
            decode_paged_spec::<Report>("reports"@, w) == Ok::<
                (Seq<ReportModel>, Option<PageModel>),
                DecodeError,
            >((list_view(self.reports@), opt_page_view(self.pagination))),
    {
        proof {
            reveal_strlit("reports");
            reveal_strlit("pagination");
            assert("reports"@[0] != "pagination"@[0]);
        }
        encode_paged("reports", &self.reports, &self.pagination)
    }

    /// Reads a response from its wire shape.
    pub fn decode(w: &WireValue) -> (r: Result<QueryReportsResponse, DecodeError>)
        ensures
            match r {
                Ok(q) => decode_paged_spec::<Report>("reports"@, *w) == Ok::<
                    (Seq<ReportModel>, Option<PageModel>),
                    DecodeError,
                >((list_view(q.reports@), opt_page_view(q.pagination))),
                Err(e) => decode_paged_spec::<Report>("reports"@, *w) == Err::<
                    (Seq<ReportModel>, Option<PageModel>),
                    DecodeError,
                >(e),
            },
    {
        match decode_paged("reports", w) {
            Ok((reports, pagination)) => Ok(QueryReportsResponse { reports, pagination }),
            Err(e) => Err(e),
        }
    }
}

impl QueryReasonsResponse {
    /// The wire shape of this response; decoding it gives the response back.
    pub fn encode(&self) -> (w: WireValue)
        ensures
            is_paged_wire::<Reason>(
                "reasons"@,
                list_view(self.reasons@),
                opt_page_view(self.pagination),
                w,
            ),
            decode_paged_spec::<Reason>("reasons"@, w) == Ok::<
                (Seq<ReasonModel>, Option<PageModel>),
                DecodeError,
            >((list_view(self.reasons@), opt_page_view(self.pagination))),
    {
        proof {
            reveal_strlit("reasons");
            reveal_strlit("pagination");
            assert("reasons"@[0] != "pagination"@[0]);
        }
        encode_paged("reasons", &self.reasons, &self.pagination)
    }

    /// Reads a response from its wire shape.
    pub fn decode(w: &WireValue) -> (r: Result<QueryReasonsResponse, DecodeError>)
        ensures
            match r {
                Ok(q) => decode_paged_spec::<Reason>("reasons"@, *w) == Ok::<
                    (Seq<ReasonModel>, Option<PageModel>),
                    DecodeError,
                >((list_view(q.reasons@), opt_page_view(q.pagination))),
                Err(e) => decode_paged_spec::<Reason>("reasons"@, *w) == Err::<
                    (Seq<ReasonModel>, Option<PageModel>),
                    DecodeError,
                >(e),
            },
    {
        match decode_paged("reasons", w) {
            Ok((reasons, pagination)) => Ok(QueryReasonsResponse { reasons, pagination }),
            Err(e) => Err(e),
        }
    }
}

impl QueryReportResponse {
    /// The wire shape of this response; decoding it gives the response back.
    pub fn encode(&self) -> (w: WireValue)
        ensures
            is_single_wire::<Report>("report"@, self.report@, w),
            decode_single_spec::<Report>("report"@, w) == Ok::<ReportModel, DecodeError>(
                self.report@,
            ),
    {
        encode_single("report", &self.report)
    }

    /// Reads a response from its wire shape.
    pub fn decode(w: &WireValue) -> (r: Result<QueryReportResponse, DecodeError>)
        ensures
            match r {
                Ok(q) => decode_single_spec::<Report>("report"@, *w) == Ok::<
                    ReportModel,
                    DecodeError,
                >(q.report@),
                Err(e) => decode_single_spec::<Report>("report"@, *w) == Err::<
                    ReportModel,
                    DecodeError,
                >(e),
            },
    {
        match decode_single("report", w) {
            Ok(report) => Ok(QueryReportResponse { report }),
            Err(e) => Err(e),
        }
    }
}

impl QueryReasonResponse {
    /// The wire shape of this response; decoding it gives the response back.
    pub fn encode(&self) -> (w: WireValue)
        ensures
            is_single_wire::<Reason>("reason"@, self.reason@, w),
            decode_single_spec::<Reason>("reason"@, w) == Ok::<ReasonModel, DecodeError>(
                self.reason@,
            ),
    {
        encode_single("reason", &self.reason)
    }

    /// Reads a response from its wire shape.
    pub fn decode(w: &WireValue) -> (r: Result<QueryReasonResponse, DecodeError>)
        ensures
            match r {
                Ok(q) => decode_single_spec::<Reason>("reason"@, *w) == Ok::<
                    ReasonModel,
                    DecodeError,
                >(q.reason@),
                Err(e) => decode_single_spec::<Reason>("reason"@, *w) == Err::<
                    ReasonModel,
                    DecodeError,
                >(e),
            },
    {
        match decode_single("reason", w) {
            Ok(reason) => Ok(QueryReasonResponse { reason }),
            Err(e) => Err(e),
        }
    }
}

// ---------------------------------------------------------------- mocks

/// The address that files the fixture reports.
pub const MOCK_REPORTER: &'static str = "desmos1rfv0f7mx7w9d3jv3h803u38vqym9ygg344asm3";

/// The address that the fixture user report is about.
pub const MOCK_REPORTED_USER: &'static str = "desmos1nwp8gxrnmrsrzjdhvk47vvmthzxjtphgxp5ftc";

/// The fixture report on a user.
pub open spec fn mock_user_report_model(subspace_id: u64) -> ReportModel {
    ReportModel {
        subspace_id,
        id: 0,
        reasons_ids: seq![0u32, 2u32],
        message: None,
        reporter: MOCK_REPORTER@,
        target: ReportTargetModel::User { user: MOCK_REPORTED_USER@ },
        creation_date: ""@,
    }
}

/// The fixture report on a post.
pub open spec fn mock_post_report_model(subspace_id: u64) -> ReportModel {
    ReportModel {
        subspace_id,
        id: 1,
        reasons_ids: Seq::empty(),
        message: Some("Report text"@),
        reporter: MOCK_REPORTER@,
        target: ReportTargetModel::Post { post_id: 42 },
        creation_date: ""@,
    }
}

/// The fixture reason without a description.
pub open spec fn mock_first_reason_model(subspace_id: u64) -> ReasonModel {
    ReasonModel { subspace_id, id: 1, title: "Mock reason 1"@, description: None }
}

/// The fixture reason with a description.
pub open spec fn mock_second_reason_model(subspace_id: u64) -> ReasonModel {
    ReasonModel {
        subspace_id,
        id: 2,
        title: "Mock reason 2"@,
        description: Some("Reason description"@),
    }
}

/// Fixture data of the reports module.
pub struct MockReportsQueries {}

impl MockReportsQueries {
    /// The fixture reports of a subspace: one on a user, one on a post.
    pub fn get_mocked_reports(subspace_id: u64) -> (r: Vec<Report>)
        ensures
            list_view(r@) == seq![
                mock_user_report_model(subspace_id),
                mock_post_report_model(subspace_id),
            ],
    {
        let mut r: Vec<Report> = Vec::new();
        r.push(Self::get_mocked_report(subspace_id));
        let post_report = Report {
            subspace_id,
            id: 1,
            reasons_ids: Vec::new(),
            message: Some(String::from_str("Report text")),
            reporter: String::from_str(MOCK_REPORTER),
            target: ReportTarget::Post { post_id: 42 },
            creation_date: String::from_str(""),
        };
        assert(post_report@.reasons_ids =~= Seq::<u32>::empty());
        r.push(post_report);
        assert(list_view(r@) =~= seq![
            mock_user_report_model(subspace_id),
            mock_post_report_model(subspace_id),
        ]);
        r
    }

    /// The fixture report on a user.
    pub fn get_mocked_report(subspace_id: u64) -> (r: Report)
        ensures
            r@ == mock_user_report_model(subspace_id),
    {
        let mut reasons_ids: Vec<u32> = Vec::new();
        reasons_ids.push(0);
        reasons_ids.push(2);
        assert(reasons_ids@ =~= seq![0u32, 2u32]);
        Report {
            subspace_id,
            id: 0,
            reasons_ids,
            message: None,
            reporter: String::from_str(MOCK_REPORTER),
            target: ReportTarget::User { user: String::from_str(MOCK_REPORTED_USER) },
            creation_date: String::from_str(""),
        }
    }

    /// The fixture reasons of a subspace.
    pub fn get_mocked_reasons(subspace_id: u64) -> (r: Vec<Reason>)
        ensures
            list_view(r@) == seq![
                mock_first_reason_model(subspace_id),
                mock_second_reason_model(subspace_id),
            ],
    {
        let mut r: Vec<Reason> = Vec::new();
        r.push(Self::get_mocked_reason(subspace_id));
        r.push(
            Reason {
                subspace_id,
                id: 2,
                title: String::from_str("Mock reason 2"),
                description: Some(String::from_str("Reason description")),
            },
        );
        assert(list_view(r@) =~= seq![
            mock_first_reason_model(subspace_id),
            mock_second_reason_model(subspace_id),
        ]);
        r
    }

    /// The fixture reason without a description.
    pub fn get_mocked_reason(subspace_id: u64) -> (r: Reason)
        ensures
            r@ == mock_first_reason_model(subspace_id),
    {
        Reason { subspace_id, id: 1, title: String::from_str("Mock reason 1"), description: None }
    }
}

/// Answers a reports query with fixture data of the queried subspace, already
/// in its wire shape, lists with no page response. Decoding the answer gives
/// the fixture back.
pub fn mock_reports_query_response(query: &ReportsQuery) -> (r: WireValue)
    ensures
        match query {
            ReportsQuery::Reports { subspace_id, .. } => {
                let reports = seq![
                    mock_user_report_model(*subspace_id),
                    mock_post_report_model(*subspace_id),
                ];
                &&& is_paged_wire::<Report>("reports"@, reports, None, r)
                &&& decode_paged_spec::<Report>("reports"@, r) == Ok::<
                    (Seq<ReportModel>, Option<PageModel>),
                    DecodeError,
                >((reports, None))
            },
            ReportsQuery::Report { subspace_id, .. } => {
                &&& is_single_wire::<Report>("report"@, mock_user_report_model(*subspace_id), r)
                &&& decode_single_spec::<Report>("report"@, r) == Ok::<ReportModel, DecodeError>(
                    mock_user_report_model(*subspace_id),
                )
            },
            ReportsQuery::Reasons { subspace_id, .. } => {
                let reasons = seq![
                    mock_first_reason_model(*subspace_id),
                    mock_second_reason_model(*subspace_id),
                ];
                &&& is_paged_wire::<Reason>("reasons"@, reasons, None, r)
                &&& decode_paged_spec::<Reason>("reasons"@, r) == Ok::<
                    (Seq<ReasonModel>, Option<PageModel>),
                    DecodeError,
                >((reasons, None))
            },
            ReportsQuery::Reason { subspace_id, .. } => {
                &&& is_single_wire::<Reason>("reason"@, mock_first_reason_model(*subspace_id), r)
                &&& decode_single_spec::<Reason>("reason"@, r) == Ok::<ReasonModel, DecodeError>(
                    mock_first_reason_model(*subspace_id),
                )
            },
        },
{
    match query {
        ReportsQuery::Reports { subspace_id, .. } => QueryReportsResponse {
            reports: MockReportsQueries::get_mocked_reports(*subspace_id),
            pagination: None,
        }.encode(),
        ReportsQuery::Report { subspace_id, .. } => QueryReportResponse {
            report: MockReportsQueries::get_mocked_report(*subspace_id),
        }.encode(),
        ReportsQuery::Reasons { subspace_id, .. } => QueryReasonsResponse {
            reasons: MockReportsQueries::get_mocked_reasons(*subspace_id),
            pagination: None,
        }.encode(),
        ReportsQuery::Reason { subspace_id, .. } => QueryReasonResponse {
            reason: MockReportsQueries::get_mocked_reason(*subspace_id),
        }.encode(),
    }
}

/// The answer to one reports query.
#[derive(PartialEq, Eq, Debug)]
pub enum ReportsResponse {
    Reports(QueryReportsResponse),
    Report(QueryReportResponse),
    Reasons(QueryReasonsResponse),
    Reason(QueryReasonResponse),
}

/// Whether `r` is read as the answer to `query`: each query variant
/// has its own response type.
pub open spec fn decodes_answer(query: ReportsQuery, w: WireValue, r: Result<
    ReportsResponse,
    DecodeError,
>) -> bool {
    match query {
        ReportsQuery::Reports { .. } => match r {
            Ok(ReportsResponse::Reports(q)) => decode_paged_spec::<Report>("reports"@, w) == Ok::<
                (Seq<ReportModel>, Option<PageModel>),
                DecodeError,
            >((list_view(q.reports@), opt_page_view(q.pagination))),
            Err(e) => decode_paged_spec::<Report>("reports"@, w) == Err::<
                (Seq<ReportModel>, Option<PageModel>),
                DecodeError,
            >(e),
            _ => false,
        },
        ReportsQuery::Report { .. } => match r {
            Ok(ReportsResponse::Report(q)) => decode_single_spec::<Report>("report"@, w) == Ok::<
                ReportModel,
                DecodeError,
            >(q.report@),
            Err(e) => decode_single_spec::<Report>("report"@, w) == Err::<ReportModel, DecodeError>(
                e,
            ),
            _ => false,
        },
        ReportsQuery::Reasons { .. } => match r {
            Ok(ReportsResponse::Reasons(q)) => decode_paged_spec::<Reason>("reasons"@, w) == Ok::<
                (Seq<ReasonModel>, Option<PageModel>),
                DecodeError,
            >((list_view(q.reasons@), opt_page_view(q.pagination))),
            Err(e) => decode_paged_spec::<Reason>("reasons"@, w) == Err::<
                (Seq<ReasonModel>, Option<PageModel>),
                DecodeError,
            >(e),
            _ => false,
        },
        ReportsQuery::Reason { .. } => match r {
            Ok(ReportsResponse::Reason(q)) => decode_single_spec::<Reason>("reason"@, w) == Ok::<
                ReasonModel,
                DecodeError,
            >(q.reason@),
            Err(e) => decode_single_spec::<Reason>("reason"@, w) == Err::<ReasonModel, DecodeError>(
                e,
            ),
            _ => false,
        },
    }
}

/// Reads the chain's answer to `query` as that query's response type.
pub fn decode_reports_response(query: &ReportsQuery, w: &WireValue) -> (r: Result<
    ReportsResponse,
    DecodeError,
>)
    ensures
        decodes_answer(*query, *w, r),
{
    match query {
        ReportsQuery::Reports { .. } => match QueryReportsResponse::decode(w) {
            Ok(q) => Ok(ReportsResponse::Reports(q)),
            Err(e) => Err(e),
        },
        ReportsQuery::Report { .. } => match QueryReportResponse::decode(w) {
            Ok(q) => Ok(ReportsResponse::Report(q)),
            Err(e) => Err(e),
        },
        ReportsQuery::Reasons { .. } => match QueryReasonsResponse::decode(w) {
            Ok(q) => Ok(ReportsResponse::Reasons(q)),
            Err(e) => Err(e),
        },
        ReportsQuery::Reason { .. } => match QueryReasonResponse::decode(w) {
            Ok(q) => Ok(ReportsResponse::Reason(q)),
            Err(e) => Err(e),
        },
    }
}

} // verus!
