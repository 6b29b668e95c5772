use article_reader::explain::{
    context_for_term, explain, get_technical_context, truncate_sentence, try_explain,
    ExplainResult, QUOTED_SENTENCE_BYTES,
};

const FALLBACK_CONTEXT: &str = "a concept commonly encountered in software development";

#[test]
fn short_sentence_is_kept_whole() {
    assert_eq!(truncate_sentence("hello", 50), "hello");
    assert_eq!(truncate_sentence("hello", 5), "hello");
    assert_eq!(truncate_sentence("", 0), "");
}

#[test]
fn long_sentence_is_cut_and_marked() {
    assert_eq!(truncate_sentence("abcdefghij", 4), "abcd...");
    assert_eq!(truncate_sentence("hello", 4), "hell...");
    assert_eq!(truncate_sentence("hello", 0), "...");
    assert_eq!(truncate_sentence("h\u{e9}llo", 3), "h\u{e9}...");
}

#[test]
fn known_terms_have_their_context() {
    assert_eq!(
        context_for_term("api"),
        "Application Programming Interface, a set of protocols for building software"
    );
    assert_eq!(
        context_for_term("async"),
        "non-blocking operations that don't wait for completion"
    );
    assert_eq!(
        context_for_term("asynchronous"),
        "non-blocking operations that don't wait for completion"
    );
    assert_eq!(context_for_term("cache"), "temporary storage for frequently accessed data");
    assert_eq!(context_for_term("concurrency"), "handling multiple tasks simultaneously");
    assert_eq!(context_for_term("database"), "organized collection of structured data");
    assert_eq!(context_for_term("deploy"), "releasing software to production environment");
    assert_eq!(context_for_term("deployment"), "releasing software to production environment");
    assert_eq!(context_for_term("endpoint"), "URL where an API can be accessed");
    assert_eq!(context_for_term("framework"), "reusable software platform for development");
    assert_eq!(context_for_term("git"), "distributed version control system");
    assert_eq!(context_for_term("http"), "protocol for transferring data on the web");
    assert_eq!(context_for_term("index"), "data structure for fast data retrieval");
    assert_eq!(context_for_term("json"), "JavaScript Object Notation, a data format");
    assert_eq!(context_for_term("kubernetes"), "container orchestration platform");
    assert_eq!(context_for_term("k8s"), "container orchestration platform");
    assert_eq!(context_for_term("latency"), "delay in data transmission");
    assert_eq!(context_for_term("middleware"), "software that bridges different applications");
    assert_eq!(context_for_term("node"), "a point in a network or data structure");
    assert_eq!(context_for_term("orm"), "Object-Relational Mapping for database abstraction");
    assert_eq!(context_for_term("pipeline"), "sequence of data processing stages");
    assert_eq!(context_for_term("query"), "request for data from a database");
    assert_eq!(context_for_term("rest"), "architectural style for web services");
    assert_eq!(context_for_term("restful"), "architectural style for web services");
    assert_eq!(context_for_term("schema"), "structure definition for data");
    assert_eq!(context_for_term("thread"), "smallest unit of execution in a process");
    assert_eq!(context_for_term("url"), "Uniform Resource Locator, web address");
    assert_eq!(context_for_term("webhook"), "HTTP callback for event notifications");
}

#[test]
fn unknown_terms_have_the_general_context() {
    assert_eq!(context_for_term("banana"), FALLBACK_CONTEXT);
    assert_eq!(context_for_term(""), FALLBACK_CONTEXT);
    assert_eq!(context_for_term("API"), FALLBACK_CONTEXT);
    assert_eq!(context_for_term("apis"), FALLBACK_CONTEXT);
}

#[test]
fn context_ignores_case() {
    assert_eq!(
        get_technical_context("API"),
        "Application Programming Interface, a set of protocols for building software"
    );
    assert_eq!(get_technical_context("K8s"), "container orchestration platform");
    assert_eq!(get_technical_context("WebHook"), "HTTP callback for event notifications");
    assert_eq!(get_technical_context("Banana"), FALLBACK_CONTEXT);
}

#[test]
fn explanation_is_filled_from_the_templates() {
    let result = explain("Cache", "The cache is warm.");
    assert_eq!(
        result,
        ExplainResult {
            english: "A term commonly used in technical contexts to describe or refer to specific concepts or operations.".to_string(),
            chinese: "在技术语境中，\"Cache\" 通常指代特定的概念或操作。这个词在编程和系统设计中经常出现。".to_string(),
            technical_note: Some(
                "In the context of \"The cache is warm.\", this term typically refers to temporary storage for frequently accessed data.".to_string()
            ),
        }
    );
}

#[test]
fn explanation_quotes_at_most_fifty_bytes() {
    assert_eq!(QUOTED_SENTENCE_BYTES, 50);
    let sentence = "0123456789012345678901234567890123456789012345678901234567890";
    let result = explain("zzz", sentence);
    assert_eq!(
        result.technical_note,
        Some(
            "In the context of \"01234567890123456789012345678901234567890123456789...\", this term typically refers to a concept commonly encountered in software development.".to_string()
        )
    );
}

#[test]
fn explanation_is_refused_where_the_cut_splits_a_character() {
    let mut sentence = String::new();
    for _ in 0..49 {
        sentence.push('a');
    }
    sentence.push('\u{e9}');
    sentence.push_str(" and more");
    assert_eq!(try_explain("api", &sentence), None);

    let whole = try_explain("api", "short one");
    assert_eq!(whole, Some(explain("api", "short one")));

    let mut even = String::new();
    for _ in 0..50 {
        even.push('a');
    }
    even.push('\u{e9}');
    let cut = try_explain("api", &even).unwrap();
    let mut quoted = String::new();
    for _ in 0..50 {
        quoted.push('a');
    }
    assert_eq!(
        cut.technical_note,
        Some(format!(
            "In the context of \"{}...\", this term typically refers to Application Programming Interface, a set of protocols for building software.",
            quoted
        ))
    );
}
