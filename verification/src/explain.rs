//! Templated explanations of a word in its sentence.

use vstd::prelude::*;
use vstd::string::StringExecFns;
use vstd::utf8::{decode_utf8, encode_utf8, encode_utf8_decode_utf8, is_char_boundary};
use crate::text::same_text;

verus! {

/// An explanation in two languages, with an optional technical remark.
#[derive(Debug, Clone, PartialEq, Eq)]
pub struct ExplainResult {
    pub english: String,
    pub chinese: String,
    pub technical_note: Option<String>,
}

/// An [`ExplainResult`] with its strings taken as character sequences.
pub struct ExplainView {
    pub english: Seq<char>,
    pub chinese: Seq<char>,
    pub technical_note: Option<Seq<char>>,
}

impl View for ExplainResult {
    type V = ExplainView;

    open spec fn view(&self) -> ExplainView {
        ExplainView {
            english: self.english@,
            chinese: self.chinese@,
            technical_note: match self.technical_note {
                Some(note) => Some(note@),
                None => None,
            },
        }
    }
}

/// How many bytes of a sentence are quoted in a technical remark.
pub const QUOTED_SENTENCE_BYTES: usize = 50;

/// `s` cut to its first `max_len` bytes and marked with an ellipsis, or `s`
/// itself where it is no longer than that.
pub open spec fn truncated(s: Seq<char>, max_len: nat) -> Seq<char> {
    if encode_utf8(s).len() <= max_len {
        s
    } else {
        decode_utf8(encode_utf8(s).subrange(0, max_len as int)) + "..."@
    }
}

/// Whether `s` can be cut at `max_len` bytes: it is short enough to stay
/// whole, or the cut falls between two characters.
pub open spec fn can_truncate(s: Seq<char>, max_len: nat) -> bool {
    encode_utf8(s).len() > max_len ==> is_char_boundary(encode_utf8(s), max_len as int)
}

/// The length of a string in bytes.
fn byte_len(s: &str) -> (n: usize)
    ensures
        n == encode_utf8(s@).len(),
{
    s.as_bytes().len()
}

/// Cuts a sentence to at most `max_len` bytes, with an ellipsis where
/// something was cut.
pub fn truncate_sentence(s: &str, max_len: usize) -> (r: String)
    requires
        can_truncate(s@, max_len as nat),
    ensures
        r@ == truncated(s@, max_len as nat),
{
    if byte_len(s) <= max_len {
        s.to_owned()
    } else {
        let (head, _) = s.split_at(max_len);
        proof {
            encode_utf8_decode_utf8(head@);
        }
        String::from_str(head).concat("...")
    }
}

/// The lower-case form of a word.
pub uninterp spec fn lowercase_of(word: Seq<char>) -> Seq<char>;

/// Calls `str::to_lowercase`, which returns the lower-case equivalent of a
/// string as Unicode defines it. The contract claims only that the output
/// depends on the input text alone, and names it [`lowercase_of`].
#[verifier::external_body]
fn lowercase(word: &str) -> (lowered: String)
    ensures
        lowered@ == lowercase_of(word@),
{
    word.to_lowercase()
}

/// What a lower-case technical term stands for.
pub open spec fn context_of(term: Seq<char>) -> Seq<char> {
    if term == "api"@ {
        "Application Programming Interface, a set of protocols for building software"@
    } else if term == "async"@ || term == "asynchronous"@ {
        "non-blocking operations that don't wait for completion"@
    } else if term == "cache"@ {
        "temporary storage for frequently accessed data"@
    } else if term == "concurrency"@ {
        "handling multiple tasks simultaneously"@
    } else if term == "database"@ {
        "organized collection of structured data"@
    } else if term == "deploy"@ || term == "deployment"@ {
        "releasing software to production environment"@
    } else if term == "endpoint"@ {
        "URL where an API can be accessed"@
    } else if term == "framework"@ {
        "reusable software platform for development"@
    } else if term == "git"@ {
        "distributed version control system"@
    } else if term == "http"@ {
        "protocol for transferring data on the web"@
    } else if term == "index"@ {
        "data structure for fast data retrieval"@
    } else if term == "json"@ {
        "JavaScript Object Notation, a data format"@
    } else if term == "kubernetes"@ || term == "k8s"@ {
        "container orchestration platform"@
    } else if term == "latency"@ {
        "delay in data transmission"@
    } else if term == "middleware"@ {
        "software that bridges different applications"@
    } else if term == "node"@ {
        "a point in a network or data structure"@
    } else if term == "orm"@ {
        "Object-Relational Mapping for database abstraction"@
    } else if term == "pipeline"@ {
        "sequence of data processing stages"@
    } else if term == "query"@ {
        "request for data from a database"@
    } else if term == "rest"@ || term == "restful"@ {
        "architectural style for web services"@
    } else if term == "schema"@ {
        "structure definition for data"@
    } else if term == "thread"@ {
        "smallest unit of execution in a process"@
    } else if term == "url"@ {
        "Uniform Resource Locator, web address"@
    } else if term == "webhook"@ {
        "HTTP callback for event notifications"@
    } else {
        "a concept commonly encountered in software development"@
    }
}

/// Looks a lower-case term up in the table of technical terms.
pub fn context_for_term(term: &str) -> (context: &'static str)
    ensures
        context@ == context_of(term@),
{
    if same_text(term, "api") {
        "Application Programming Interface, a set of protocols for building software"
    } else if same_text(term, "async") || same_text(term, "asynchronous") {
        "non-blocking operations that don't wait for completion"
    } else if same_text(term, "cache") {
        "temporary storage for frequently accessed data"
    } else if same_text(term, "concurrency") {
        "handling multiple tasks simultaneously"
    } else if same_text(term, "database") {
        "organized collection of structured data"
    } else if same_text(term, "deploy") || same_text(term, "deployment") {
        "releasing software to production environment"
    } else if same_text(term, "endpoint") {
        "URL where an API can be accessed"
    } else if same_text(term, "framework") {
        "reusable software platform for development"
    } else if same_text(term, "git") {
        "distributed version control system"
    } else if same_text(term, "http") {
        "protocol for transferring data on the web"
    } else if same_text(term, "index") {
        "data structure for fast data retrieval"
    } else if same_text(term, "json") {
        "JavaScript Object Notation, a data format"
    } else if same_text(term, "kubernetes") || same_text(term, "k8s") {
        "container orchestration platform"
    } else if same_text(term, "latency") {
        "delay in data transmission"
    } else if same_text(term, "middleware") {
        "software that bridges different applications"
    } else if same_text(term, "node") {
        "a point in a network or data structure"
    } else if same_text(term, "orm") {
        "Object-Relational Mapping for database abstraction"
    } else if same_text(term, "pipeline") {
        "sequence of data processing stages"
    } else if same_text(term, "query") {
        "request for data from a database"
    } else if same_text(term, "rest") || same_text(term, "restful") {
        "architectural style for web services"
    } else if same_text(term, "schema") {
        "structure definition for data"
    } else if same_text(term, "thread") {
        "smallest unit of execution in a process"
    } else if same_text(term, "url") {
        "Uniform Resource Locator, web address"
    } else if same_text(term, "webhook") {
        "HTTP callback for event notifications"
    } else {
        "a concept commonly encountered in software development"
    }
}

/// What a word stands for in software, whatever its letters' case.
pub fn get_technical_context(word: &str) -> (context: &'static str)
    ensures
        context@ == context_of(lowercase_of(word@)),
{
    let lowered = lowercase(word);
    context_for_term(lowered.as_str())
}

/// The English line of every explanation.
pub open spec fn english_line() -> Seq<char> {
    "A term commonly used in technical contexts to describe or refer to specific concepts or operations."@
}

/// The Chinese line for `word`.
pub open spec fn chinese_line(word: Seq<char>) -> Seq<char> {
    "在技术语境中，\""@ + word + "\" 通常指代特定的概念或操作。这个词在编程和系统设计中经常出现。"@
}

/// The technical remark on a term with the given context, quoting `quoted`.
pub open spec fn technical_line(quoted: Seq<char>, context: Seq<char>) -> Seq<char> {
    "In the context of \""@ + quoted + "\", this term typically refers to "@ + context + "."@
}

/// The explanation of `word` as it stands in `sentence`.
pub open spec fn explanation_of(word: Seq<char>, sentence: Seq<char>) -> ExplainView {
    ExplainView {
        english: english_line(),
        chinese: chinese_line(word),
        technical_note: Some(
            technical_line(
                truncated(sentence, QUOTED_SENTENCE_BYTES as nat),
                context_of(lowercase_of(word)),
            ),
        ),
    }
}

/// Explains `word` as it stands in `sentence`, from templates.
pub fn explain(word: &str, sentence: &str) -> (result: ExplainResult)
    requires
        can_truncate(sentence@, QUOTED_SENTENCE_BYTES as nat),
    ensures
        result@ == explanation_of(word@, sentence@),
{
    let english = String::from_str(
        "A term commonly used in technical contexts to describe or refer to specific concepts or operations.",
    );
    let chinese = String::from_str("在技术语境中，\"").concat(word).concat(
        "\" 通常指代特定的概念或操作。这个词在编程和系统设计中经常出现。",
    );
    let quoted = truncate_sentence(sentence, QUOTED_SENTENCE_BYTES);
    let note = String::from_str("In the context of \"").concat(quoted.as_str()).concat(
        "\", this term typically refers to ",
    ).concat(get_technical_context(word)).concat(".");
    ExplainResult { english, chinese, technical_note: Some(note) }
}

/// Explains `word` where the sentence can be quoted, and returns `None`
/// where the cut would fall inside a character.
pub fn try_explain(word: &str, sentence: &str) -> (result: Option<ExplainResult>)
    ensures
        match result {
            Some(r) => can_truncate(sentence@, QUOTED_SENTENCE_BYTES as nat) && r@
                == explanation_of(word@, sentence@),
            None => !can_truncate(sentence@, QUOTED_SENTENCE_BYTES as nat),
        },
{
    if byte_len(sentence) <= QUOTED_SENTENCE_BYTES || sentence.is_char_boundary(QUOTED_SENTENCE_BYTES) {
        Some(explain(word, sentence))
    } else {
        None
    }
}

} // verus!
