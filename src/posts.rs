//! The posts module: post attachments, polls and reply settings.
use vstd::prelude::*;
use vstd::string::*;
use crate::wire::{
    bool_of, contains_field, decode_all, decode_list, encode_list, field, find_field, has_field,
    is_list_wire, is_text_field, key_count, lemma_find_at, lemma_find_none, lemma_key_count_one,
    lemma_list_round_trip, list_view, lookup, opt_text_of, opt_view, quoted_of, read_bool,
    read_opt_text, read_quoted, read_tag, read_text, read_u32, tag_of, text_is, text_of, u32_of,
    view_result, DecodeError, TYPE_KEY, WireCodec, WireField, WireValue,
};

verus! {

/// Type tag of a media attachment.
pub const MEDIA_TAG: &'static str = "/desmos.posts.v2.Media";

/// Type tag of a poll attachment.
pub const POLL_TAG: &'static str = "/desmos.posts.v2.Poll";

/// One answer that a poll offers.
#[derive(PartialEq, Eq, Debug)]
pub struct ProvidedAnswer {
    pub text: Option<String>,
}

impl View for ProvidedAnswer {
    type V = Option<Seq<char>>;

    open spec fn view(&self) -> Option<Seq<char>> {
        opt_view(self.text)
    }
}

/// How many votes one answer of a poll received.
#[derive(Clone, Copy, PartialEq, Eq, Structural, Debug)]
pub struct AnswerResult {
    pub answer_index: u32,
    pub votes: u64,
}

/// The final tally of a poll.
#[derive(PartialEq, Eq, Debug)]
pub struct PollTallyResults {
    pub results: Vec<AnswerResult>,
}

impl View for PollTallyResults {
    type V = Seq<AnswerResult>;

    open spec fn view(&self) -> Seq<AnswerResult> {
        self.results@
    }
}

/// Content attached to a post.
#[derive(PartialEq, Eq, Debug)]
pub enum PostAttachment {
    Media { mime_type: String, uri: String },
    Poll {
        question: String,
        provided_answers: Vec<ProvidedAnswer>,
        end_date: String,
        allows_multiple_answers: bool,
        allows_answer_edits: bool,
        final_tally_results: Option<PollTallyResults>,
    },
}

/// The mathematical value of a [`PostAttachment`].
pub enum AttachmentModel {
    Media { mime_type: Seq<char>, uri: Seq<char> },
    Poll {
        question: Seq<char>,
        provided_answers: Seq<Option<Seq<char>>>,
        end_date: Seq<char>,
        allows_multiple_answers: bool,
        allows_answer_edits: bool,
        final_tally_results: Option<Seq<AnswerResult>>,
    },
}

/// The answers of a poll as their models.
pub open spec fn answers_view(a: Seq<ProvidedAnswer>) -> Seq<Option<Seq<char>>> {
    a.map_values(|x: ProvidedAnswer| x@)
}

/// An optional tally as its model.
pub open spec fn tally_view(t: Option<PollTallyResults>) -> Option<Seq<AnswerResult>> {
    match t {
        Some(t) => Some(t@),
        None => None,
    }
}

impl View for PostAttachment {
    type V = AttachmentModel;

    open spec fn view(&self) -> AttachmentModel {
        match self {
            PostAttachment::Media { mime_type, uri } => AttachmentModel::Media {
                mime_type: mime_type@,
                uri: uri@,
            },
            PostAttachment::Poll {
                question,
                provided_answers,
                end_date,
                allows_multiple_answers,
                allows_answer_edits,
                final_tally_results,
            } => AttachmentModel::Poll {
                question: question@,
                provided_answers: answers_view(provided_answers@),
                end_date: end_date@,
                allows_multiple_answers: *allows_multiple_answers,
                allows_answer_edits: *allows_answer_edits,
                final_tally_results: tally_view(*final_tally_results),
            },
        }
    }
}

// ---------------------------------------------------------------- wire shapes

/// An answer is an object with its text, or an empty object when it has none.
pub open spec fn is_answer_wire(m: Option<Seq<char>>, w: WireValue) -> bool {
    &&& w matches WireValue::Object(fs)
    &&& match m {
        None => fs@.len() == 0,
        Some(t) => fs@.len() == 1 && is_text_field(fs@[0], "text"@, t),
    }
}

/// A result is an object with the answer's index and its votes.
pub open spec fn is_result_wire(r: AnswerResult, w: WireValue) -> bool {
    &&& w matches WireValue::Object(fs)
    &&& fs@.len() == 2
    &&& fs@[0].key@ == "answer_index"@
    &&& fs@[0].value == WireValue::Number(r.answer_index as u64)
    &&& fs@[1].key@ == "votes"@
    &&& fs@[1].value == WireValue::Quoted(r.votes)
}

/// A tally is an object with the list of its results.
pub open spec fn is_tally_wire(rs: Seq<AnswerResult>, w: WireValue) -> bool {
    &&& w matches WireValue::Object(fs)
    &&& fs@.len() == 1
    &&& fs@[0].key@ == "results"@
    &&& is_list_wire::<AnswerResult>(rs, fs@[0].value)
}

/// The single wire shape of each attachment: the tag, then the variant's
/// fields in a fixed order; an unset tally is left out.
pub open spec fn is_attachment_wire(m: AttachmentModel, w: WireValue) -> bool {
    &&& w matches WireValue::Object(fs)
    &&& match m {
        AttachmentModel::Media { mime_type, uri } => {
            &&& fs@.len() == 3
            &&& is_text_field(fs@[0], TYPE_KEY@, MEDIA_TAG@)
            &&& is_text_field(fs@[1], "mime_type"@, mime_type)
            &&& is_text_field(fs@[2], "uri"@, uri)
        },
        AttachmentModel::Poll {
            question,
            provided_answers,
            end_date,
            allows_multiple_answers,
            allows_answer_edits,
            final_tally_results,
        } => {
            &&& fs@.len() == if final_tally_results is Some { 7int } else { 6int }
            &&& is_text_field(fs@[0], TYPE_KEY@, POLL_TAG@)
            &&& is_text_field(fs@[1], "question"@, question)
            &&& fs@[2].key@ == "provided_answers"@
            &&& is_list_wire::<ProvidedAnswer>(provided_answers, fs@[2].value)
            &&& is_text_field(fs@[3], "end_date"@, end_date)
            &&& fs@[4].key@ == "allows_multiple_answers"@
            &&& fs@[4].value == WireValue::Bool(allows_multiple_answers)
            &&& fs@[5].key@ == "allows_answer_edits"@
            &&& fs@[5].value == WireValue::Bool(allows_answer_edits)
            &&& final_tally_results matches Some(rs) ==> {
                &&& fs@[6].key@ == "final_tally_results"@
                &&& is_tally_wire(rs, fs@[6].value)
            }
        },
    }
}

// ---------------------------------------------------------------- decoding

/// What decoding a wire value as an answer gives.
pub open spec fn decode_answer_spec(w: WireValue) -> Result<Option<Seq<char>>, DecodeError> {
    match w {
        WireValue::Object(fs) => opt_text_of(find_field(fs@, "text"@)),
        _ => Err(DecodeError::MalformedValue),
    }
}

/// The answer decoder, for lists.
pub open spec fn answer_decoder() -> spec_fn(WireValue) -> Result<Option<Seq<char>>, DecodeError> {
    |w: WireValue| decode_answer_spec(w)
}

/// What decoding a wire value as a result gives.
pub open spec fn decode_result_spec(w: WireValue) -> Result<AnswerResult, DecodeError> {
    match w {
        WireValue::Object(fs) => match u32_of(find_field(fs@, "answer_index"@)) {
            Err(e) => Err(e),
            Ok(answer_index) => match quoted_of(find_field(fs@, "votes"@)) {
                Err(e) => Err(e),
                Ok(votes) => Ok(AnswerResult { answer_index, votes }),
            },
        },
        _ => Err(DecodeError::MalformedValue),
    }
}

/// The result decoder, for lists.
pub open spec fn result_decoder() -> spec_fn(WireValue) -> Result<AnswerResult, DecodeError> {
    |w: WireValue| decode_result_spec(w)
}

/// What decoding a wire value as a tally gives.
pub open spec fn decode_tally_spec(w: WireValue) -> Result<Seq<AnswerResult>, DecodeError> {
    match w {
        WireValue::Object(fs) => match find_field(fs@, "results"@) {
            None => Err(DecodeError::MissingField),
            Some(WireValue::List(vs)) => decode_all(vs@, result_decoder()),
            Some(_) => Err(DecodeError::MalformedValue),
        },
        _ => Err(DecodeError::MalformedValue),
    }
}

/// A required list of answers.
pub open spec fn answers_of(f: Option<WireValue>) -> Result<Seq<Option<Seq<char>>>, DecodeError> {
    match f {
        None => Err(DecodeError::MissingField),
        Some(WireValue::List(vs)) => decode_all(vs@, answer_decoder()),
        Some(_) => Err(DecodeError::MalformedValue),
    }
}

/// An optional tally: absent or null is `None`.
pub open spec fn opt_tally_of(f: Option<WireValue>) -> Result<Option<Seq<AnswerResult>>, DecodeError> {
    match f {
        None => Ok(None),
        Some(WireValue::Null) => Ok(None),
        Some(w) => match decode_tally_spec(w) {
            Ok(t) => Ok(Some(t)),
            Err(e) => Err(e),
        },
    }
}

/// Whether an object holds a field that only a poll has.
pub open spec fn has_poll_field(fs: Seq<WireField>) -> bool {
    ||| has_field(fs, "question"@)
    ||| has_field(fs, "provided_answers"@)
    ||| has_field(fs, "end_date"@)
    ||| has_field(fs, "allows_multiple_answers"@)
    ||| has_field(fs, "allows_answer_edits"@)
    ||| has_field(fs, "final_tally_results"@)
}

/// Whether an object holds a field that only a media attachment has.
pub open spec fn has_media_field(fs: Seq<WireField>) -> bool {
    has_field(fs, "mime_type"@) || has_field(fs, "uri"@)
}

/// The fields of a media attachment.
pub open spec fn decode_media_spec(fs: Seq<WireField>) -> Result<AttachmentModel, DecodeError> {
    match text_of(find_field(fs, "mime_type"@)) {
        Err(e) => Err(e),
        Ok(mime_type) => match text_of(find_field(fs, "uri"@)) {
            Err(e) => Err(e),
            Ok(uri) => Ok(AttachmentModel::Media { mime_type, uri }),
        },
    }
}

/// The fields of a poll, read in their wire order.
pub open spec fn decode_poll_spec(fs: Seq<WireField>) -> Result<AttachmentModel, DecodeError> {
    let question = text_of(find_field(fs, "question"@));
    let answers = answers_of(find_field(fs, "provided_answers"@));
    let end_date = text_of(find_field(fs, "end_date"@));
    let multiple = bool_of(find_field(fs, "allows_multiple_answers"@));
    let edits = bool_of(find_field(fs, "allows_answer_edits"@));
    let tally = opt_tally_of(find_field(fs, "final_tally_results"@));
    if question is Err {
        Err(question->Err_0)
    } else if answers is Err {
        Err(answers->Err_0)
    } else if end_date is Err {
        Err(end_date->Err_0)
    } else if multiple is Err {
        Err(multiple->Err_0)
    } else if edits is Err {
        Err(edits->Err_0)
    } else if tally is Err {
        Err(tally->Err_0)
    } else {
        Ok(
            AttachmentModel::Poll {
                question: question->Ok_0,
                provided_answers: answers->Ok_0,
                end_date: end_date->Ok_0,
                allows_multiple_answers: multiple->Ok_0,
                allows_answer_edits: edits->Ok_0,
                final_tally_results: tally->Ok_0,
            },
        )
    }
}

/// What decoding a wire value as an attachment gives: the tag picks the
/// variant, a field of the other variant makes it ambiguous.
pub open spec fn decode_attachment_spec(w: WireValue) -> Result<AttachmentModel, DecodeError> {
    match w {
        WireValue::Object(fs) => match tag_of(fs@) {
            Err(e) => Err(e),
            Ok(t) => if t == MEDIA_TAG@ {
                if has_poll_field(fs@) {
                    Err(DecodeError::AmbiguousPayload)
                } else {
                    decode_media_spec(fs@)
                }
            } else if t == POLL_TAG@ {
                if has_media_field(fs@) {
                    Err(DecodeError::AmbiguousPayload)
                } else {
                    decode_poll_spec(fs@)
                }
            } else {
                Err(DecodeError::UnknownDiscriminator)
            },
        },
        _ => Err(DecodeError::MalformedValue),
    }
}

// ---------------------------------------------------------------- round trips

/// Decoding the wire shape of an answer gives the answer back.
pub proof fn lemma_answer_round_trip(m: Option<Seq<char>>, w: WireValue)
    requires
        is_answer_wire(m, w),
    ensures
        decode_answer_spec(w) == Ok::<Option<Seq<char>>, DecodeError>(m),
{
    let fs = w->Object_0@;
    match m {
        Some(t) => lemma_find_at(fs, "text"@, 0),
        None => lemma_find_none(fs, "text"@),
    }
}

/// Decoding the wire shape of a result gives the result back.
pub proof fn lemma_result_round_trip(r: AnswerResult, w: WireValue)
    requires
        is_result_wire(r, w),
    ensures
        decode_result_spec(w) == Ok::<AnswerResult, DecodeError>(r),
{
    reveal_strlit("answer_index");
    reveal_strlit("votes");
    let fs = w->Object_0@;
    assert("answer_index"@[0] != "votes"@[0]);
    lemma_find_at(fs, "answer_index"@, 0);
    lemma_find_at(fs, "votes"@, 1);
}

/// Decoding the wire shape of a tally gives the tally back.
pub proof fn lemma_tally_round_trip(rs: Seq<AnswerResult>, w: WireValue)
    requires
        is_tally_wire(rs, w),
    ensures
        decode_tally_spec(w) == Ok::<Seq<AnswerResult>, DecodeError>(rs),
{
    let fs = w->Object_0@;
    lemma_find_at(fs, "results"@, 0);
    lemma_list_round_trip::<AnswerResult>(rs, fs[0].value);
}

/// Decoding the wire shape of any attachment gives the attachment back.
pub proof fn lemma_attachment_round_trip(m: AttachmentModel, w: WireValue)
    requires
        is_attachment_wire(m, w),
    ensures
        decode_attachment_spec(w) == Ok::<AttachmentModel, DecodeError>(m),
{
    reveal_strlit("@type");
    reveal_strlit("mime_type");
    reveal_strlit("uri");
    reveal_strlit("question");
    reveal_strlit("provided_answers");
    reveal_strlit("end_date");
    reveal_strlit("allows_multiple_answers");
    reveal_strlit("allows_answer_edits");
    reveal_strlit("final_tally_results");
    reveal_strlit("/desmos.posts.v2.Media");
    reveal_strlit("/desmos.posts.v2.Poll");
    let fs = w->Object_0@;
    let keys = seq![
        TYPE_KEY@,
        "mime_type"@,
        "uri"@,
        "question"@,
        "provided_answers"@,
        "end_date"@,
        "allows_multiple_answers"@,
        "allows_answer_edits"@,
        "final_tally_results"@,
    ];
    assert("allows_multiple_answers"@[7] != "allows_answer_edits"@[7]);
    assert forall|i: int, j: int| 0 <= i < j < 9 implies keys[i] != keys[j] by {
        if !(i == 6 && j == 7) {
            assert(keys[i][0] != keys[j][0]);
        }
    }
    assert(MEDIA_TAG@[17] != POLL_TAG@[17]);
    lemma_find_at(fs, TYPE_KEY@, 0);
    match m {
        AttachmentModel::Media { mime_type, uri } => {
            assert(keys[0] != keys[1] && keys[0] != keys[2] && keys[1] != keys[2]);
            lemma_find_at(fs, "mime_type"@, 1);
            lemma_find_at(fs, "uri"@, 2);
            assert forall|k: int| 3 <= k < 9 implies #[trigger] find_field(fs, keys[k]) is None by {
                assert(keys[k] != keys[0] && keys[k] != keys[1] && keys[k] != keys[2]);
                lemma_find_none(fs, keys[k]);
            }
            lemma_key_count_one(fs, TYPE_KEY@, 0);
        },
        AttachmentModel::Poll {
            question,
            provided_answers,
            end_date,
            allows_multiple_answers,
            allows_answer_edits,
            final_tally_results,
        } => {
            let poll_keys = seq![0int, 3, 4, 5, 6, 7, 8];
            assert forall|a: int, b: int| 0 <= a < b < 7 implies poll_keys[a] < poll_keys[b]
                && keys[poll_keys[a]] != keys[poll_keys[b]] by {}
            lemma_find_at(fs, "question"@, 1);
            lemma_find_at(fs, "provided_answers"@, 2);
            lemma_find_at(fs, "end_date"@, 3);
            lemma_find_at(fs, "allows_multiple_answers"@, 4);
            lemma_find_at(fs, "allows_answer_edits"@, 5);
            assert(keys[1] != keys[0] && keys[1] != keys[3] && keys[1] != keys[4] && keys[1]
                != keys[5] && keys[1] != keys[6] && keys[1] != keys[7] && keys[1] != keys[8]);
            assert(keys[2] != keys[0] && keys[2] != keys[3] && keys[2] != keys[4] && keys[2]
                != keys[5] && keys[2] != keys[6] && keys[2] != keys[7] && keys[2] != keys[8]);
            lemma_find_none(fs, "mime_type"@);
            lemma_find_none(fs, "uri"@);
            assert forall|j: int| 0 <= j < fs.len() && j != 0 implies fs[j].key@ != TYPE_KEY@ by {
                if j == 1 {
                } else if j == 2 {
                } else if j == 3 {
                } else if j == 4 {
                } else if j == 5 {
                } else {
                    assert(keys[0] != keys[8]);
                }
            }
            lemma_key_count_one(fs, TYPE_KEY@, 0);
            lemma_list_round_trip::<ProvidedAnswer>(provided_answers, fs[2].value);
            match final_tally_results {
                Some(rs) => {
                    lemma_find_at(fs, "final_tally_results"@, 6);
                    lemma_tally_round_trip(rs, fs[6].value);
                },
                None => {
                    lemma_find_none(fs, "final_tally_results"@);
                },
            }
        },
    }
}

/// A tag outside the known set is rejected as unknown, never read as a variant.
pub proof fn lemma_attachment_unknown_tag(w: WireValue)
    requires
        w matches WireValue::Object(fs) && tag_of(fs@) matches Ok(t) && t != MEDIA_TAG@ && t
            != POLL_TAG@,
    ensures
        decode_attachment_spec(w) == Err::<AttachmentModel, DecodeError>(
            DecodeError::UnknownDiscriminator,
        ),
{
}

/// An object with a known tag and fields of both variants is rejected as ambiguous.
pub proof fn lemma_attachment_ambiguous(w: WireValue)
    requires
        w matches WireValue::Object(fs) && tag_of(fs@) matches Ok(t) && (t == MEDIA_TAG@ || t
            == POLL_TAG@) && has_media_field(fs@) && has_poll_field(fs@),
    ensures
        decode_attachment_spec(w) == Err::<AttachmentModel, DecodeError>(
            DecodeError::AmbiguousPayload,
        ),
{
}

/// An object with more than one type tag is rejected as ambiguous.
pub proof fn lemma_attachment_two_tags(w: WireValue)
    requires
        w matches WireValue::Object(fs) && key_count(fs@, TYPE_KEY@) > 1,
    ensures
        decode_attachment_spec(w) == Err::<AttachmentModel, DecodeError>(
            DecodeError::AmbiguousPayload,
        ),
{
}

// ---------------------------------------------------------------- executable codec

impl WireCodec for ProvidedAnswer {
    open spec fn decoder() -> spec_fn(WireValue) -> Result<Option<Seq<char>>, DecodeError> {
        answer_decoder()
    }

    open spec fn is_wire(m: Option<Seq<char>>, w: WireValue) -> bool {
        is_answer_wire(m, w)
    }

    fn encode(&self) -> (w: WireValue) {
        let mut fs: Vec<WireField> = Vec::new();
        match &self.text {
            Some(t) => fs.push(field("text", WireValue::Text(t.clone()))),
            None => {},
        }
        let w = WireValue::Object(fs);
        proof {
            lemma_answer_round_trip(self@, w);
        }
        w
    }

    fn decode(w: &WireValue) -> (r: Result<ProvidedAnswer, DecodeError>) {
        match w {
            WireValue::Object(fs) => match read_opt_text(fs, "text") {
                Ok(text) => Ok(ProvidedAnswer { text }),
                Err(e) => Err(e),
            },
            _ => Err(DecodeError::MalformedValue),
        }
    }

    proof fn lemma_wire_round_trip(m: Option<Seq<char>>, w: WireValue) {
        lemma_answer_round_trip(m, w);
    }
}

impl View for AnswerResult {
    type V = AnswerResult;

    open spec fn view(&self) -> AnswerResult {
        *self
    }
}

impl WireCodec for AnswerResult {
    open spec fn decoder() -> spec_fn(WireValue) -> Result<AnswerResult, DecodeError> {
        result_decoder()
    }

    open spec fn is_wire(m: AnswerResult, w: WireValue) -> bool {
        is_result_wire(m, w)
    }

    fn encode(&self) -> (w: WireValue) {
        let mut fs: Vec<WireField> = Vec::new();
        fs.push(field("answer_index", WireValue::Number(self.answer_index as u64)));
        fs.push(field("votes", WireValue::Quoted(self.votes)));
        let w = WireValue::Object(fs);
        proof {
            lemma_result_round_trip(*self, w);
        }
        w
    }

    fn decode(w: &WireValue) -> (r: Result<AnswerResult, DecodeError>) {
        match w {
            WireValue::Object(fs) => {
                let answer_index = match read_u32(fs, "answer_index") {
                    Ok(n) => n,
                    Err(e) => return Err(e),
                };
                match read_quoted(fs, "votes") {
                    Ok(votes) => Ok(AnswerResult { answer_index, votes }),
                    Err(e) => Err(e),
                }
            },
            _ => Err(DecodeError::MalformedValue),
        }
    }

    proof fn lemma_wire_round_trip(m: AnswerResult, w: WireValue) {
        lemma_result_round_trip(m, w);
    }
}

impl PollTallyResults {
    /// The wire shape of this tally.
    pub fn encode(&self) -> (w: WireValue)
        ensures
            is_tally_wire(self@, w),
            decode_tally_spec(w) == Ok::<Seq<AnswerResult>, DecodeError>(self@),
    {
        let mut fs: Vec<WireField> = Vec::new();
        fs.push(field("results", encode_list(&self.results)));
        assert(list_view(self.results@) =~= self.results@);
        let w = WireValue::Object(fs);
        proof {
            lemma_tally_round_trip(self@, w);
        }
        w
    }

    /// Reads a tally from its wire shape.
    pub fn decode(w: &WireValue) -> (r: Result<PollTallyResults, DecodeError>)
        ensures
            view_result(r) == decode_tally_spec(*w),
    {
        match w {
            WireValue::Object(fs) => match lookup(fs, "results") {
                None => Err(DecodeError::MissingField),
                Some(l) => match decode_list::<AnswerResult>(l) {
                    Ok(results) => {
                        assert(list_view(results@) =~= results@);
                        Ok(PollTallyResults { results })
                    },
                    Err(e) => Err(e),
                },
            },
            _ => Err(DecodeError::MalformedValue),
        }
    }
}

impl WireCodec for PostAttachment {
    open spec fn decoder() -> spec_fn(WireValue) -> Result<AttachmentModel, DecodeError> {
        |w: WireValue| decode_attachment_spec(w)
    }

    open spec fn is_wire(m: AttachmentModel, w: WireValue) -> bool {
        is_attachment_wire(m, w)
    }

    fn encode(&self) -> (w: WireValue) {
        let mut fs: Vec<WireField> = Vec::new();
        match self {
            PostAttachment::Media { mime_type, uri } => {
                fs.push(field(TYPE_KEY, WireValue::Text(String::from_str(MEDIA_TAG))));
                fs.push(field("mime_type", WireValue::Text(mime_type.clone())));
                fs.push(field("uri", WireValue::Text(uri.clone())));
            },
            PostAttachment::Poll {
                question,
                provided_answers,
                end_date,
                allows_multiple_answers,
                allows_answer_edits,
                final_tally_results,
            } => {
                fs.push(field(TYPE_KEY, WireValue::Text(String::from_str(POLL_TAG))));
                fs.push(field("question", WireValue::Text(question.clone())));
                fs.push(field("provided_answers", encode_list(provided_answers)));
                assert(list_view(provided_answers@) =~= answers_view(provided_answers@));
                fs.push(field("end_date", WireValue::Text(end_date.clone())));
                fs.push(field("allows_multiple_answers", WireValue::Bool(*allows_multiple_answers)));
                fs.push(field("allows_answer_edits", WireValue::Bool(*allows_answer_edits)));
                match final_tally_results {
                    Some(t) => fs.push(field("final_tally_results", t.encode())),
                    None => {},
                }
            },
        }
        let w = WireValue::Object(fs);
        proof {
            lemma_attachment_round_trip(self@, w);
        }
        w
    }

    fn decode(w: &WireValue) -> (r: Result<PostAttachment, DecodeError>) {
        let fs = match w {
            WireValue::Object(fs) => fs,
            _ => return Err(DecodeError::MalformedValue),
        };
        let tag = match read_tag(fs) {
            Ok(t) => t,
            Err(e) => return Err(e),
        };
        if text_is(&tag, MEDIA_TAG) {
            if contains_field(fs, "question") || contains_field(fs, "provided_answers")
                || contains_field(fs, "end_date") || contains_field(fs, "allows_multiple_answers")
                || contains_field(fs, "allows_answer_edits") || contains_field(
                fs,
                "final_tally_results",
            ) {
                return Err(DecodeError::AmbiguousPayload);
            }
            let mime_type = match read_text(fs, "mime_type") {
                Ok(t) => t,
                Err(e) => return Err(e),
            };
            match read_text(fs, "uri") {
                Ok(uri) => Ok(PostAttachment::Media { mime_type, uri }),
                Err(e) => Err(e),
            }
        } else if text_is(&tag, POLL_TAG) {
            if contains_field(fs, "mime_type") || contains_field(fs, "uri") {
                return Err(DecodeError::AmbiguousPayload);
            }
            decode_poll(fs)
        } else {
            Err(DecodeError::UnknownDiscriminator)
        }
    }

    proof fn lemma_wire_round_trip(m: AttachmentModel, w: WireValue) {
        lemma_attachment_round_trip(m, w);
    }
}

/// Reads the fields of a poll.
fn decode_poll(fs: &Vec<WireField>) -> (r: Result<PostAttachment, DecodeError>)
    ensures
        view_result(r) == decode_poll_spec(fs@),
{
    let question = match read_text(fs, "question") {
        Ok(t) => t,
        Err(e) => return Err(e),
    };
    let provided_answers = match lookup(fs, "provided_answers") {
        None => return Err(DecodeError::MissingField),
        Some(l) => match decode_list::<ProvidedAnswer>(l) {
            Ok(a) => a,
            Err(e) => return Err(e),
        },
    };
    assert(list_view(provided_answers@) =~= answers_view(provided_answers@));
    let end_date = match read_text(fs, "end_date") {
        Ok(t) => t,
        Err(e) => return Err(e),
    };
    let allows_multiple_answers = match read_bool(fs, "allows_multiple_answers") {
        Ok(b) => b,
        Err(e) => return Err(e),
    };
    let allows_answer_edits = match read_bool(fs, "allows_answer_edits") {
        Ok(b) => b,
        Err(e) => return Err(e),
    };
    let final_tally_results = match lookup(fs, "final_tally_results") {
        None => None,
        Some(WireValue::Null) => None,
        Some(t) => match PollTallyResults::decode(t) {
            Ok(t) => Some(t),
            Err(e) => return Err(e),
        },
    };
    Ok(
        PostAttachment::Poll {
            question,
            provided_answers,
            end_date,
            allows_multiple_answers,
            allows_answer_edits,
            final_tally_results,
        },
    )
}

} // verus!
