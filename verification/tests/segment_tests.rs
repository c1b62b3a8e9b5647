use tradedoc::script::{segment_text_by_script, ScriptClass, TextSegment};

fn joined(segs: &[TextSegment]) -> String {
    let mut out = String::new();
    for s in segs {
        out.push_str(&s.text);
    }
    out
}

#[test]
fn round_trips_empty_and_single_character() {
    let segs = segment_text_by_script("");
    assert_eq!(segs.len(), 0);
    let segs = segment_text_by_script("a");
    assert_eq!(segs.len(), 1);
    assert_eq!(joined(&segs), "a");
    let segs = segment_text_by_script("ก");
    assert_eq!(segs.len(), 1);
    assert_eq!(segs[0].script, ScriptClass::Thai);
    assert_eq!(joined(&segs), "ก");
}

#[test]
fn round_trips_arbitrary_strings() {
    for input in [
        "Hello World",
        "Hello สวัสดี World",
        "123 + 456 = ?",
        "Grüße aus Köln",
        "ราคาต่อหน่วย",
        "mixedสลับmixedสลับ",
        "  leading and trailing  ",
    ] {
        let segs = segment_text_by_script(input);
        assert_eq!(joined(&segs), input);
    }
}

#[test]
fn pure_latin_is_one_run() {
    let segs = segment_text_by_script("Hello World");
    assert_eq!(segs.len(), 1);
    assert_eq!(segs[0].script, ScriptClass::Latin);
    assert_eq!(segs[0].text, "Hello World");
}

#[test]
fn pure_thai_is_one_run() {
    let segs = segment_text_by_script("สวัสดี");
    assert_eq!(segs.len(), 1);
    assert_eq!(segs[0].script, ScriptClass::Thai);
    assert_eq!(segs[0].text, "สวัสดี");
}

#[test]
fn mixed_string_yields_latin_thai_latin() {
    let segs = segment_text_by_script("Hello สวัสดี World");
    assert_eq!(segs.len(), 3);
    assert_eq!(segs[0].script, ScriptClass::Latin);
    assert_eq!(segs[0].text, "Hello ");
    assert_eq!(segs[1].script, ScriptClass::Thai);
    assert_eq!(segs[1].text, "สวัสดี ");
    assert_eq!(segs[2].script, ScriptClass::Latin);
    assert_eq!(segs[2].text, "World");
}

#[test]
fn neutral_characters_attach_to_the_open_run() {
    // Digits and punctuation are script-neutral: they open a Common run,
    // and a Latin character after one starts a new run.
    let segs = segment_text_by_script("123abc");
    assert_eq!(segs.len(), 2);
    assert_eq!(segs[0].script, ScriptClass::Common);
    assert_eq!(segs[0].text, "123");
    assert_eq!(segs[1].script, ScriptClass::Latin);
    assert_eq!(segs[1].text, "abc");
    // But a neutral character never breaks an open run.
    let segs = segment_text_by_script("abc123");
    assert_eq!(segs.len(), 1);
    assert_eq!(segs[0].script, ScriptClass::Latin);
}
