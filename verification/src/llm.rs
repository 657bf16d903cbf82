use vstd::prelude::*;
use crate::text::{
    spec_trim, trim_str, spec_clean_fences, clean_fences, spec_udigits, u16_to_string,
    lemma_trim_idem, lemma_fence_wrap_lossless, fence_bare, spec_starts_with, spec_ends_with,
};

verus! {

/// What can go wrong while asking the model for recipe data.
#[derive(Debug, PartialEq)]
pub enum LlmError {
    NetworkError(String),
    ApiError(String),
    ParseError(String),
    InvalidResponse,
}

pub ghost enum LlmErrorView {
    NetworkError(Seq<char>),
    ApiError(Seq<char>),
    ParseError(Seq<char>),
    InvalidResponse,
}

impl View for LlmError {
    type V = LlmErrorView;

    open spec fn view(&self) -> LlmErrorView {
        match self {
            LlmError::NetworkError(d) => LlmErrorView::NetworkError(d@),
            LlmError::ApiError(d) => LlmErrorView::ApiError(d@),
            LlmError::ParseError(d) => LlmErrorView::ParseError(d@),
            LlmError::InvalidResponse => LlmErrorView::InvalidResponse,
        }
    }
}

pub open spec fn spec_llm_error_text(e: LlmErrorView) -> Seq<char> {
    match e {
        LlmErrorView::NetworkError(d) => "Network error: "@ + d,
        LlmErrorView::ApiError(d) => "API error: "@ + d,
        LlmErrorView::ParseError(d) => "Parse error: "@ + d,
        LlmErrorView::InvalidResponse => "Invalid response from API"@,
    }
}

impl LlmError {
    /// A one-line description of the error, for reporting.
    pub fn describe(&self) -> (r: String)
        ensures
            r@ == spec_llm_error_text(self@),
    {
        match self {
            LlmError::NetworkError(d) => String::from_str("Network error: ").concat(d.as_str()),
            LlmError::ApiError(d) => String::from_str("API error: ").concat(d.as_str()),
            LlmError::ParseError(d) => String::from_str("Parse error: ").concat(d.as_str()),
            LlmError::InvalidResponse => String::from_str("Invalid response from API"),
        }
    }
}

/// One role-tagged message of the chat conversation.
pub struct ChatMessage {
    pub role: String,
    pub content: String,
}

pub ghost struct ChatMessageView {
    pub role: Seq<char>,
    pub content: Seq<char>,
}

impl View for ChatMessage {
    type V = ChatMessageView;

    open spec fn view(&self) -> ChatMessageView {
        ChatMessageView { role: self.role@, content: self.content@ }
    }
}

impl DeepView for ChatMessage {
    type V = ChatMessageView;

    open spec fn deep_view(&self) -> ChatMessageView {
        self.view()
    }
}

/// The request sent to the chat-completion endpoint: a model identifier and
/// the ordered conversation.
pub struct ChatRequest {
    pub model: String,
    pub messages: Vec<ChatMessage>,
}

pub ghost struct ChatRequestView {
    pub model: Seq<char>,
    pub messages: Seq<ChatMessageView>,
}

impl View for ChatRequest {
    type V = ChatRequestView;

    open spec fn view(&self) -> ChatRequestView {
        ChatRequestView { model: self.model@, messages: self.messages.deep_view() }
    }
}

/// The structured extraction result: the recipe's ingredients and its
/// timing and serving metadata, each optional field absent rather than
/// empty when the model gave nothing usable.
#[derive(Debug, PartialEq)]
pub struct RecipeInfo {
    pub ingredients: Vec<String>,
    pub prep_time: Option<String>,
    pub cook_time: Option<String>,
    pub total_time: Option<String>,
    pub servings: Option<String>,
}

pub ghost struct RecipeInfoView {
    pub ingredients: Seq<Seq<char>>,
    pub prep_time: Option<Seq<char>>,
    pub cook_time: Option<Seq<char>>,
    pub total_time: Option<Seq<char>>,
    pub servings: Option<Seq<char>>,
}

impl View for RecipeInfo {
    type V = RecipeInfoView;

    open spec fn view(&self) -> RecipeInfoView {
        RecipeInfoView {
            ingredients: self.ingredients.deep_view(),
            prep_time: self.prep_time.deep_view(),
            cook_time: self.cook_time.deep_view(),
            total_time: self.total_time.deep_view(),
            servings: self.servings.deep_view(),
        }
    }
}

/// A JSON member read as a string: the member is absent, or present but not
/// a string, or a string with its text.
pub enum JsonField {
    Missing,
    NotText,
    Text(String),
}

pub ghost enum JsonFieldView {
    Missing,
    NotText,
    Text(Seq<char>),
}

impl View for JsonField {
    type V = JsonFieldView;

    open spec fn view(&self) -> JsonFieldView {
        match self {
            JsonField::Missing => JsonFieldView::Missing,
            JsonField::NotText => JsonFieldView::NotText,
            JsonField::Text(s) => JsonFieldView::Text(s@),
        }
    }
}

impl DeepView for JsonField {
    type V = JsonFieldView;

    open spec fn deep_view(&self) -> JsonFieldView {
        self.view()
    }
}

/// The five members of the model's reply that the extractor reads, each as
/// found in the parsed JSON object.
pub struct RecipeFields {
    pub ingredients: Vec<JsonField>,
    pub prep_time: JsonField,
    pub cook_time: JsonField,
    pub total_time: JsonField,
    pub servings: JsonField,
}

pub ghost struct RecipeFieldsView {
    pub ingredients: Seq<JsonFieldView>,
    pub prep_time: JsonFieldView,
    pub cook_time: JsonFieldView,
    pub total_time: JsonFieldView,
    pub servings: JsonFieldView,
}

impl View for RecipeFields {
    type V = RecipeFieldsView;

    open spec fn view(&self) -> RecipeFieldsView {
        RecipeFieldsView {
            ingredients: self.ingredients.deep_view(),
            prep_time: self.prep_time@,
            cook_time: self.cook_time@,
            total_time: self.total_time@,
            servings: self.servings@,
        }
    }
}

/// The lowercase form of a string.
pub uninterp spec fn lower_of(s: Seq<char>) -> Seq<char>;

/// Relies on str::to_lowercase: the lowercase form depends on the characters
/// alone.
#[verifier::external_body]
fn lowercase(s: &str) -> (r: String)
    ensures
        r@ == lower_of(s@),
{
    s.to_lowercase()
}

/// How one optional scalar field is normalized: absent when the member is
/// missing or not a string, when its text trims to nothing, or when its
/// lowercase form is the literal "null"; otherwise the trimmed text.
pub open spec fn spec_scalar_field(f: JsonFieldView) -> Option<Seq<char>> {
    match f {
        JsonFieldView::Text(s) => if spec_trim(s).len() == 0 || lower_of(s) == "null"@ {
            None
        } else {
            Some(spec_trim(s))
        },
        _ => None,
    }
}

pub fn normalize_scalar_field(f: &JsonField) -> (r: Option<String>)
    ensures
        r.deep_view() == spec_scalar_field(f@),
{
    match f {
        JsonField::Text(s) => {
            let trimmed = trim_str(s.as_str());
            if trimmed.is_empty() {
                return None;
            }
            let low = lowercase(s.as_str());
            let null_text = String::from_str("null");
            if low == null_text {
                None
            } else {
                Some(String::from_str(trimmed))
            }
        },
        _ => None,
    }
}

/// How the ingredient list is normalized: the string entries, each trimmed,
/// in order; entries that are not strings or trim to nothing are dropped.
pub open spec fn spec_ingredients(items: Seq<JsonFieldView>) -> Seq<Seq<char>>
    decreases items.len(),
{
    if items.len() == 0 {
        Seq::empty()
    } else {
        let rest = spec_ingredients(items.drop_last());
        match items.last() {
            JsonFieldView::Text(s) => if spec_trim(s).len() > 0 {
                rest + seq![spec_trim(s)]
            } else {
                rest
            },
            _ => rest,
        }
    }
}

pub fn normalize_ingredients(items: &Vec<JsonField>) -> (r: Vec<String>)
    ensures
        r.deep_view() == spec_ingredients(items.deep_view()),
{
    let mut out: Vec<String> = Vec::new();
    let mut i: usize = 0;
    while i < items.len()
        invariant
            i <= items.len(),
            out.deep_view() == spec_ingredients(items.deep_view().take(i as int)),
        decreases items.len() - i,
    {
        let ghost prefix = items.deep_view().take(i as int);
        let ghost step = items.deep_view().take(i + 1 as int);
        proof {
            assert(step.drop_last() =~= prefix);
            assert(step.last() == items[i as int]@);
        }
        match &items[i] {
            JsonField::Text(s) => {
                let trimmed = trim_str(s.as_str());
                if !trimmed.is_empty() {
                    out.push(String::from_str(trimmed));
                    proof {
                        assert(out.deep_view() =~= spec_ingredients(step));
                    }
                }
            },
            JsonField::Missing => {},
            JsonField::NotText => {},
        }
        i = i + 1;
    }
    proof {
        assert(items.deep_view().take(items@.len() as int) =~= items.deep_view());
    }
    out
}

/// How a whole reply object is normalized into the extraction result.
pub open spec fn spec_recipe(f: RecipeFieldsView) -> RecipeInfoView {
    RecipeInfoView {
        ingredients: spec_ingredients(f.ingredients),
        prep_time: spec_scalar_field(f.prep_time),
        cook_time: spec_scalar_field(f.cook_time),
        total_time: spec_scalar_field(f.total_time),
        servings: spec_scalar_field(f.servings),
    }
}

pub fn recipe_from_fields(fields: &RecipeFields) -> (r: RecipeInfo)
    ensures
        r@ == spec_recipe(fields@),
{
    RecipeInfo {
        ingredients: normalize_ingredients(&fields.ingredients),
        prep_time: normalize_scalar_field(&fields.prep_time),
        cook_time: normalize_scalar_field(&fields.cook_time),
        total_time: normalize_scalar_field(&fields.total_time),
        servings: normalize_scalar_field(&fields.servings),
    }
}

/// A well-formed extraction result: every ingredient and every present
/// optional field is non-empty and carries no outer whitespace.
pub open spec fn recipe_wf(r: RecipeInfoView) -> bool {
    &&& forall|j: int|
        0 <= j < r.ingredients.len() ==> (#[trigger] r.ingredients[j]).len() > 0
            && r.ingredients[j] == spec_trim(r.ingredients[j])
    &&& (r.prep_time matches Some(t) ==> t.len() > 0 && t == spec_trim(t))
    &&& (r.cook_time matches Some(t) ==> t.len() > 0 && t == spec_trim(t))
    &&& (r.total_time matches Some(t) ==> t.len() > 0 && t == spec_trim(t))
    &&& (r.servings matches Some(t) ==> t.len() > 0 && t == spec_trim(t))
}

proof fn lemma_ingredients_normalized(items: Seq<JsonFieldView>)
    ensures
        forall|j: int|
            0 <= j < spec_ingredients(items).len() ==> (#[trigger] spec_ingredients(
                items,
            )[j]).len() > 0 && spec_ingredients(items)[j] == spec_trim(spec_ingredients(items)[j]),
    decreases items.len(),
{
    if items.len() > 0 {
        lemma_ingredients_normalized(items.drop_last());
        let rest = spec_ingredients(items.drop_last());
        let whole = spec_ingredients(items);
        match items.last() {
            JsonFieldView::Text(s) => {
                lemma_trim_idem(s);
                if spec_trim(s).len() > 0 {
                    assert(whole == rest + seq![spec_trim(s)]);
                    assert forall|j: int| 0 <= j < whole.len() implies (#[trigger] whole[j]).len()
                        > 0 && whole[j] == spec_trim(whole[j]) by {
                        if j < rest.len() {
                            assert(whole[j] == rest[j]);
                        } else {
                            assert(whole[j] == spec_trim(s));
                        }
                    }
                } else {
                    assert(whole == rest);
                }
            },
            JsonFieldView::Missing => {
                assert(whole == rest);
            },
            JsonFieldView::NotText => {
                assert(whole == rest);
            },
        }
    }
}

/// Whether a string is well-formed JSON, as the parser decides it.
pub uninterp spec fn json_text_ok(s: Seq<char>) -> bool;

/// Relies on serde_json::from_str::<Value>: parsing is deterministic, so
/// whether a string parses as JSON is a function of the text alone; the error
/// is carried as its description.
#[verifier::external_body]
fn check_json_text(s: &str) -> (r: Result<(), String>)
    ensures
        r is Ok <==> json_text_ok(s@),
{
    match serde_json::from_str::<serde_json::Value>(s) {
        Ok(_) => Ok(()),
        Err(e) => Err(e.to_string()),
    }
}

/// What reading the member `key` of the JSON object parsed from `s` as a
/// string yields: `None` when `s` does not parse, is no object or has no
/// such member; `Some(None)` when the member is no string; `Some(Some(t))`
/// when it is the string `t`.
pub uninterp spec fn reply_member_of(s: Seq<char>, key: Seq<char>) -> Option<Option<Seq<char>>>;

/// Relies on serde_json's from_str::<Value>, Value::get and Value::as_str:
/// parsing and the reads are deterministic, so what the member holds is a
/// function of the text and the key alone.
#[verifier::external_body]
fn read_reply_member(s: &str, key: &str) -> (r: Option<Option<String>>)
    ensures
        r.deep_view() == reply_member_of(s@, key@),
{
    let v = match serde_json::from_str::<serde_json::Value>(s) {
        Ok(v) => v,
        Err(_) => return None,
    };
    let m = v.get(key)?;
    match m.as_str() {
        Some(t) => Some(Some(t.to_owned())),
        None => Some(None),
    }
}

/// The length of the `ingredients` member of the JSON object parsed from
/// `s`, when that member is an array; `None` when `s` does not parse or the
/// member is missing or no array.
pub uninterp spec fn reply_ingredients_len_of(s: Seq<char>) -> Option<int>;

/// Relies on serde_json's from_str::<Value>, Value::get and Value::as_array:
/// deterministic, so the length is a function of the text alone.
#[verifier::external_body]
fn read_reply_ingredients_len(s: &str) -> (r: Option<usize>)
    ensures
        r is Some <==> reply_ingredients_len_of(s@) is Some,
        r matches Some(n) ==> reply_ingredients_len_of(s@) == Some(n as int),
{
    let v = match serde_json::from_str::<serde_json::Value>(s) {
        Ok(v) => v,
        Err(_) => return None,
    };
    Some(v.get("ingredients")?.as_array()?.len())
}

/// The element `i` of the `ingredients` array of the JSON object parsed from
/// `s`, read as a string; `None` when there is no such element or it is no
/// string.
pub uninterp spec fn reply_ingredient_of(s: Seq<char>, i: int) -> Option<Seq<char>>;

/// Relies on serde_json's from_str::<Value>, Value::get, Value::as_array and
/// Value::as_str: deterministic, so the element is a function of the text
/// and the index alone.
#[verifier::external_body]
fn read_reply_ingredient(s: &str, i: usize) -> (r: Option<String>)
    ensures
        r.deep_view() == reply_ingredient_of(s@, i as int),
{
    let v = match serde_json::from_str::<serde_json::Value>(s) {
        Ok(v) => v,
        Err(_) => return None,
    };
    let e = v.get("ingredients")?.as_array()?.get(i)?;
    match e.as_str() {
        Some(t) => Some(t.to_owned()),
        None => None,
    }
}

/// The field an optional member read yields.
pub open spec fn spec_field_of(m: Option<Option<Seq<char>>>) -> JsonFieldView {
    match m {
        None => JsonFieldView::Missing,
        Some(None) => JsonFieldView::NotText,
        Some(Some(t)) => JsonFieldView::Text(t),
    }
}

/// The field an ingredient element read yields: the element exists, so a
/// non-string reads as present-but-no-text.
pub open spec fn spec_ingredient_field_of(e: Option<Seq<char>>) -> JsonFieldView {
    match e {
        None => JsonFieldView::NotText,
        Some(t) => JsonFieldView::Text(t),
    }
}

/// The five members of the reply object parsed from `s`, as the extractor
/// reads them: a missing ingredients member, or one that is no array, reads
/// as the empty list.
pub open spec fn spec_reply_fields(s: Seq<char>) -> RecipeFieldsView {
    RecipeFieldsView {
        ingredients: match reply_ingredients_len_of(s) {
            Some(n) => if n >= 0 {
                Seq::new(n as nat, |i: int| spec_ingredient_field_of(reply_ingredient_of(s, i)))
            } else {
                Seq::empty()
            },
            None => Seq::empty(),
        },
        prep_time: spec_field_of(reply_member_of(s, "prep_time"@)),
        cook_time: spec_field_of(reply_member_of(s, "cook_time"@)),
        total_time: spec_field_of(reply_member_of(s, "total_time"@)),
        servings: spec_field_of(reply_member_of(s, "servings"@)),
    }
}

fn field_from_member(m: Option<Option<String>>) -> (r: JsonField)
    ensures
        r@ == spec_field_of(m.deep_view()),
{
    match m {
        None => JsonField::Missing,
        Some(None) => JsonField::NotText,
        Some(Some(s)) => JsonField::Text(s),
    }
}

/// Reads the five members the extractor consults from the reply text.
fn read_reply_fields(s: &str) -> (r: RecipeFields)
    ensures
        r@ == spec_reply_fields(s@),
{
    let mut items: Vec<JsonField> = Vec::new();
    match read_reply_ingredients_len(s) {
        Some(n) => {
            let mut i: usize = 0;
            while i < n
                invariant
                    i <= n,
                    items.len() == i,
                    reply_ingredients_len_of(s@) == Some(n as int),
                    items.deep_view() =~= Seq::new(
                        i as nat,
                        |k: int| spec_ingredient_field_of(reply_ingredient_of(s@, k)),
                    ),
                decreases n - i,
            {
                let item = match read_reply_ingredient(s, i) {
                    Some(t) => JsonField::Text(t),
                    None => JsonField::NotText,
                };
                proof {
                    assert(item@ == spec_ingredient_field_of(reply_ingredient_of(s@, i as int)));
                }
                let ghost prev = items.deep_view();
                let ghost prev_view = items@;
                items.push(item);
                proof {
                    assert forall|k: int| 0 <= k < i + 1 implies items.deep_view()[k]
                        == spec_ingredient_field_of(reply_ingredient_of(s@, k)) by {
                        if k < i {
                            assert(items@[k] == prev_view[k]);
                            assert(items.deep_view()[k] == items@[k].deep_view());
                            assert(prev[k] == prev_view[k].deep_view());
                        } else {
                            assert(items.deep_view()[k] == item@);
                        }
                    }
                    assert(items.deep_view() =~= Seq::new(
                        (i + 1) as nat,
                        |k: int| spec_ingredient_field_of(reply_ingredient_of(s@, k)),
                    ));
                }
                i = i + 1;
            }
        },
        None => {},
    }
    let r = RecipeFields {
        ingredients: items,
        prep_time: field_from_member(read_reply_member(s, "prep_time")),
        cook_time: field_from_member(read_reply_member(s, "cook_time")),
        total_time: field_from_member(read_reply_member(s, "total_time")),
        servings: field_from_member(read_reply_member(s, "servings")),
    };
    proof {
        assert(r@.ingredients =~= spec_reply_fields(s@).ingredients);
    }
    r
}

/// The length of the `choices` member of the response envelope parsed from
/// `s`, when that member is an array; `None` when `s` does not parse or the
/// member is missing or no array.
pub uninterp spec fn chat_choices_len_of(s: Seq<char>) -> Option<int>;

/// Relies on serde_json's from_str::<Value>, Value::get and Value::as_array:
/// deterministic, so the length is a function of the body text alone.
#[verifier::external_body]
fn read_chat_choices_len(s: &str) -> (r: Option<usize>)
    ensures
        r is Some <==> chat_choices_len_of(s@) is Some,
        r matches Some(n) ==> chat_choices_len_of(s@) == Some(n as int),
{
    let v = match serde_json::from_str::<serde_json::Value>(s) {
        Ok(v) => v,
        Err(_) => return None,
    };
    Some(v.get("choices")?.as_array()?.len())
}

/// The first choice's message content of the response envelope parsed from
/// `s`: `Some` exactly when the first element of `choices` holds a `message`
/// object whose `role` and `content` members are strings, and then the
/// `content` text; `None` otherwise.
pub uninterp spec fn chat_content_of(s: Seq<char>) -> Option<Seq<char>>;

/// Relies on serde_json's from_str::<Value>, Value::get, Value::as_array and
/// Value::as_str: deterministic, so the first choice's content is a function
/// of the body text alone.
#[verifier::external_body]
fn read_chat_content(s: &str) -> (r: Option<String>)
    ensures
        r.deep_view() == chat_content_of(s@),
{
    let v = match serde_json::from_str::<serde_json::Value>(s) {
        Ok(v) => v,
        Err(_) => return None,
    };
    let m = v.get("choices")?.as_array()?.first()?.get("message")?;
    let _role = m.get("role")?.as_str()?;
    match m.get("content")?.as_str() {
        Some(t) => Some(t.to_owned()),
        None => None,
    }
}

/// The candidate JSON text of a chat response body: the body parsed as the
/// response envelope, and the first choice's message content taken from it.
/// It succeeds exactly when the body parses, `choices` is a non-empty array
/// and the first choice is well-shaped, and then carries exactly that
/// choice's content; an empty choice list is the one input rejected as
/// `InvalidResponse`, every other failure a parse error.
pub fn chat_content_from_body(body: &str) -> (r: Result<String, LlmError>)
    ensures
        r is Ok <==> (json_text_ok(body@) && (chat_choices_len_of(body@) matches Some(n) && n > 0)
            && chat_content_of(body@) is Some),
        r matches Ok(c) ==> chat_content_of(body@) == Some(c@),
        (json_text_ok(body@) && chat_choices_len_of(body@) == Some(0int)) <==> (r matches Err(e)
            && e@ == LlmErrorView::InvalidResponse),
        r matches Err(e) ==> (e@ == LlmErrorView::InvalidResponse || e@ matches
            LlmErrorView::ParseError(_)),
        !json_text_ok(body@) ==> (r matches Err(e) && e@ matches LlmErrorView::ParseError(_)),
{
    match check_json_text(body) {
        Ok(_) => {},
        Err(e) => {
            return Err(
                LlmError::ParseError(
                    String::from_str("Failed to parse JSON response: ").concat(e.as_str()),
                ),
            );
        },
    }
    match read_chat_choices_len(body) {
        None => Err(
            LlmError::ParseError(
                String::from_str("Failed to parse JSON response: choices missing or no array"),
            ),
        ),
        Some(n) => {
            if n == 0 {
                Err(LlmError::InvalidResponse)
            } else {
                match read_chat_content(body) {
                    Some(c) => Ok(c),
                    None => Err(
                        LlmError::ParseError(
                            String::from_str(
                                "Failed to parse JSON response: malformed first choice",
                            ),
                        ),
                    ),
                }
            }
        },
    }
}

/// The extraction result read from a reply's content text: the content is
/// cleaned of fence markers, parsed as JSON, and normalized field by field.
/// It fails, always as a parse error, exactly when the cleaned text is no
/// well-formed JSON; every success is exactly the normalization of the five
/// members as read from the cleaned text, and well-formed.
pub fn recipe_from_content(content: &str) -> (r: Result<RecipeInfo, LlmError>)
    ensures
        r is Ok <==> json_text_ok(spec_clean_fences(content@)),
        r matches Ok(info) ==> info@ == spec_recipe(spec_reply_fields(spec_clean_fences(content@))),
        r matches Err(e) ==> e@ matches LlmErrorView::ParseError(_),
        r matches Ok(info) ==> recipe_wf(info@),
{
    let cleaned = clean_fences(content);
    match check_json_text(cleaned.as_str()) {
        Ok(_) => {},
        Err(e) => {
            return Err(
                LlmError::ParseError(
                    String::from_str("Failed to parse recipe JSON: ").concat(e.as_str()),
                ),
            );
        },
    }
    let fields = read_reply_fields(cleaned.as_str());
    let info = recipe_from_fields(&fields);
    proof {
        lemma_recipe_normalized(fields@);
    }
    Ok(info)
}

/// The outcome of one POST against the chat-completion endpoint, as the
/// caller that performed it reports it: a response with its status code and
/// its body text read in full (an empty string when the body could not be
/// read), or a transport failure with its description.
pub enum HttpEvent {
    Response { status: u16, body: String },
    Failed(String),
}

pub ghost enum HttpEventView {
    Response { status: u16, body: Seq<char> },
    Failed(Seq<char>),
}

impl View for HttpEvent {
    type V = HttpEventView;

    open spec fn view(&self) -> HttpEventView {
        match self {
            HttpEvent::Response { status, body } => HttpEventView::Response {
                status: *status,
                body: body@,
            },
            HttpEvent::Failed(d) => HttpEventView::Failed(d@),
        }
    }
}

/// A successful HTTP status: the 2xx class.
pub open spec fn spec_status_success(status: u16) -> bool {
    200 <= status < 300
}

/// A 2xx reply the extractor can read end to end: the envelope parses, its
/// choices member is a non-empty array, the first choice is well-shaped, and
/// that choice's cleaned content parses as JSON.
pub open spec fn spec_reply_readable(body: Seq<char>) -> bool {
    &&& json_text_ok(body)
    &&& chat_choices_len_of(body) matches Some(n) && n > 0
    &&& chat_content_of(body) is Some
    &&& json_text_ok(spec_clean_fences(chat_content_of(body)->0))
}

/// The value a readable reply specifies: the five members read from the
/// cleaned first-choice content, normalized.
pub open spec fn spec_extracted(body: Seq<char>) -> RecipeInfoView {
    spec_recipe(spec_reply_fields(spec_clean_fences(chat_content_of(body)->0)))
}

/// The detail carried by an API failure: the status code and the raw body.
pub open spec fn spec_api_error_text(status: u16, body: Seq<char>) -> Seq<char> {
    "HTTP "@ + spec_udigits(status as nat) + ": "@ + body
}

/// Extracts the recipe data from the outcome of the chat-completion call.
/// A transport failure propagates as a network error.  A non-2xx status
/// yields the API error carrying status code and body, and its body is never
/// read as JSON.  A 2xx response is read as the response envelope, and
/// succeeds exactly when it is readable end to end, returning exactly the
/// normalization of the reply as read; an empty choice list is an invalid
/// response, any malformed envelope or reply payload a parse error, and
/// every success a well-formed result.
pub fn extract_recipe_info(event: &HttpEvent) -> (r: Result<RecipeInfo, LlmError>)
    ensures
        event@ matches HttpEventView::Failed(d) ==> (r matches Err(e) && e@
            == LlmErrorView::NetworkError(d)),
        event@ matches HttpEventView::Response { status, body } ==> {
            &&& !spec_status_success(status) ==> (r matches Err(e) && e@
                == LlmErrorView::ApiError(spec_api_error_text(status, body)))
            &&& spec_status_success(status) ==> {
                &&& (r is Ok <==> spec_reply_readable(body))
                &&& (r matches Ok(info) ==> info@ == spec_extracted(body))
                &&& (r matches Ok(info) ==> recipe_wf(info@))
                &&& ((json_text_ok(body) && chat_choices_len_of(body) == Some(0int)) <==> (
                r matches Err(e) && e@ == LlmErrorView::InvalidResponse))
                &&& (r matches Err(e) ==> (e@ == LlmErrorView::InvalidResponse || e@ matches
                    LlmErrorView::ParseError(_)))
                &&& (!json_text_ok(body) ==> (r matches Err(e) && e@ matches
                    LlmErrorView::ParseError(_)))
            }
        },
{
    match event {
        HttpEvent::Failed(d) => Err(LlmError::NetworkError(d.clone())),
        HttpEvent::Response { status, body } => {
            if !(200 <= *status && *status < 300) {
                let mut detail = String::from_str("HTTP ");
                let digits = u16_to_string(*status);
                detail.append(digits.as_str());
                detail.append(": ");
                detail.append(body.as_str());
                Err(LlmError::ApiError(detail))
            } else {
                match chat_content_from_body(body.as_str()) {
                    Ok(content) => recipe_from_content(content.as_str()),
                    Err(e) => Err(e),
                }
            }
        },
    }
}

/// The fixed model identifier sent with every request.
pub open spec fn model_id() -> Seq<char> {
    "openai/gpt-4o"@
}

/// The fixed system message: the model is to answer with bare JSON.
pub open spec fn system_prompt() -> Seq<char> {
    "You are a helpful assistant that extracts recipe information from web content. Always return valid JSON without markdown code blocks or formatting."@
}

/// The fixed instructional text that precedes the page text in the user
/// message, asking for the five-key JSON shape.
pub open spec fn prompt_prefix() -> Seq<char> {
    "Please analyze this recipe content and extract the following information in a structured format:\n        \n        1. Ingredients list (clean, human-readable format)\n        2. Preparation time\n        3. Cooking time  \n        4. Total time\n        5. Number of servings\n        \n        Return the information in this exact JSON format:\n        {\n            \"ingredients\": [\"ingredient 1\", \"ingredient 2\", ...],\n            \"prep_time\": \"time or null\",\n            \"cook_time\": \"time or null\", \n            \"total_time\": \"time or null\",\n            \"servings\": \"servings or null\"\n        }\n        \n        Recipe content:\n        "@
}

/// The conversation sent for a page: the fixed system message, then the user
/// message holding the instructions and the verbatim page text.
pub open spec fn spec_chat_request(page_content: Seq<char>) -> ChatRequestView {
    ChatRequestView {
        model: model_id(),
        messages: seq![
            ChatMessageView { role: "system"@, content: system_prompt() },
            ChatMessageView { role: "user"@, content: prompt_prefix() + page_content },
        ],
    }
}

pub fn build_chat_request(page_content: &str) -> (r: ChatRequest)
    ensures
        r@ == spec_chat_request(page_content@),
{
    let user_content = String::from_str(
        "Please analyze this recipe content and extract the following information in a structured format:\n        \n        1. Ingredients list (clean, human-readable format)\n        2. Preparation time\n        3. Cooking time  \n        4. Total time\n        5. Number of servings\n        \n        Return the information in this exact JSON format:\n        {\n            \"ingredients\": [\"ingredient 1\", \"ingredient 2\", ...],\n            \"prep_time\": \"time or null\",\n            \"cook_time\": \"time or null\", \n            \"total_time\": \"time or null\",\n            \"servings\": \"servings or null\"\n        }\n        \n        Recipe content:\n        ",
    ).concat(page_content);
    let mut messages: Vec<ChatMessage> = Vec::new();
    messages.push(
        ChatMessage {
            role: String::from_str("system"),
            content: String::from_str(
                "You are a helpful assistant that extracts recipe information from web content. Always return valid JSON without markdown code blocks or formatting.",
            ),
        },
    );
    messages.push(ChatMessage { role: String::from_str("user"), content: user_content });
    let r = ChatRequest { model: String::from_str("openai/gpt-4o"), messages };
    proof {
        assert(r@.messages =~= spec_chat_request(page_content@).messages);
    }
    r
}

/// The fixed chat-completion endpoint.
pub open spec fn chat_endpoint() -> Seq<char> {
    "https://openrouter.ai/api/v1/chat/completions"@
}

pub fn chat_endpoint_url() -> (r: String)
    ensures
        r@ == chat_endpoint(),
{
    String::from_str("https://openrouter.ai/api/v1/chat/completions")
}

/// The Authorization header value built from the API key.
pub open spec fn spec_bearer(key: Seq<char>) -> Seq<char> {
    "Bearer "@ + key
}

pub fn bearer_token(api_key: &str) -> (r: String)
    ensures
        r@ == spec_bearer(api_key@),
{
    String::from_str("Bearer ").concat(api_key)
}

/// Law: a fenced reply specifies the same extraction as the bare payload.
/// For a payload with no outer whitespace that does not itself begin or end
/// with a fence marker, the tagged-fence form and the bare form clean to the
/// same text, so whether the reply parses and the value extracted from it
/// coincide.
pub proof fn lemma_fenced_content_extracts_alike(inner: Seq<char>)
    requires
        spec_trim(inner) == inner,
        !spec_starts_with(inner, fence_bare()),
        !spec_ends_with(inner, fence_bare()),
    ensures
        json_text_ok(spec_clean_fences("```json\n"@ + inner + "\n```"@)) == json_text_ok(
            spec_clean_fences(inner),
        ),
        spec_recipe(spec_reply_fields(spec_clean_fences("```json\n"@ + inner + "\n```"@)))
            == spec_recipe(spec_reply_fields(spec_clean_fences(inner))),
{
    lemma_fence_wrap_lossless(inner);
}

/// Law: normalization always yields a well-formed result, whatever the parsed
/// reply held.
pub proof fn lemma_recipe_normalized(f: RecipeFieldsView)
    ensures
        recipe_wf(spec_recipe(f)),
{
    lemma_ingredients_normalized(f.ingredients);
    match f.prep_time {
        JsonFieldView::Text(s) => lemma_trim_idem(s),
        _ => (),
    }
    match f.cook_time {
        JsonFieldView::Text(s) => lemma_trim_idem(s),
        _ => (),
    }
    match f.total_time {
        JsonFieldView::Text(s) => lemma_trim_idem(s),
        _ => (),
    }
    match f.servings {
        JsonFieldView::Text(s) => lemma_trim_idem(s),
        _ => (),
    }
}

} // verus!
