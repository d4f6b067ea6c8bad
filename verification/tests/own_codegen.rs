use veltrix::codegen::xml::XmlEvent;
use veltrix::codegen::emoji::{
    assign_const_names, cldr_input_path, constants_source, details_source, emoji_input_path,
    keywords_from_annotations, parse_emoji_test, Annotation, annotations_of, keywords_from_xml,
};

const SAMPLE: &str = "# comment\n# group: Smileys & Emotion\n# subgroup: face-smiling\n1F600 ; fully-qualified # \u{1F600} E1.0 grinning face\n263A FE0F ; fully-qualified # \u{263A}\u{FE0F} E0.6 smiling face\n263A ; unqualified # \u{263A} E0.6 smiling face\n# group: Flags\n# subgroup: country-flag\n1f1e6 1f1e8 ; fully-qualified # \u{1F1E6}\u{1F1E8} E2.0 flag: Ascension Island\n1F600 ; fully-qualified # \u{1F600} E1.0 grinning face\n";

#[test]
fn input_paths_follow_the_version() {
    assert_eq!(emoji_input_path("LATEST"), "data/unicode-emoji.txt");
    assert_eq!(emoji_input_path("17.0"), "data/unicode-emoji-17.0.txt");
    assert_eq!(cldr_input_path("latest"), "data/unicode-cldr-en.xml");
    assert_eq!(cldr_input_path("16.0"), "data/unicode-cldr-en-16.0.xml");
}

#[test]
fn emoji_test_lines_are_read() {
    let emojis = parse_emoji_test(SAMPLE);
    assert_eq!(emojis.len(), 4);
    assert_eq!(emojis[0].name, "grinning face");
    assert_eq!(emojis[0].group, "Smileys & Emotion");
    assert_eq!(emojis[0].subgroup, "face-smiling");
    assert_eq!(emojis[0].emoji_version, "1.0");
    assert_eq!(emojis[1].codepoints, vec!["263A", "FE0F"]);
    assert!(emojis[2].is_flag);
    assert_eq!(emojis[2].name, "Ascension Island");
    assert_eq!(emojis[2].codepoints, vec!["1F1E6", "1F1E8"]);
    assert_eq!(emojis[2].group, "Flags");
}

#[test]
fn const_names_keep_the_first_and_qualify_repeats() {
    let mut emojis = parse_emoji_test(SAMPLE);
    assign_const_names(&mut emojis);
    assert_eq!(emojis[0].const_name, "EMOJI_GRINNING_FACE");
    assert_eq!(emojis[1].const_name, "EMOJI_SMILING_FACE");
    assert_eq!(emojis[2].const_name, "EMOJI_FLAG_ASCENSION_ISLAND");
    assert_eq!(emojis[3].const_name, "EMOJI_GRINNING_FACE_1F600");
}

#[test]
fn keywords_take_the_first_non_tts_annotation() {
    let annotations = vec![
        Annotation { cp: Some("\u{1F600}".into()), tts: true, text: "grinning face".into() },
        Annotation { cp: Some("\u{1F600}".into()), tts: false, text: "face | grin || happy ".into() },
        Annotation { cp: Some("\u{1F600}".into()), tts: false, text: "ignored".into() },
        Annotation { cp: None, tts: false, text: "none".into() },
    ];
    let keywords = keywords_from_annotations(&annotations);
    assert_eq!(keywords.len(), 1);
    assert_eq!(keywords[0].1, vec!["face", "grin", "happy"]);
}

#[test]
fn sources_render_constants_and_details() {
    let mut emojis = parse_emoji_test(SAMPLE);
    assign_const_names(&mut emojis);
    let constants = constants_source(&emojis);
    assert!(constants.contains("pub const EMOJI_GRINNING_FACE: &str = \"\u{1F600}\";\n"));
    let keywords = vec![("\u{1F600}".to_string(), vec!["grin".to_string(), "say \"hi\"".to_string()])];
    let details = details_source(&emojis, &keywords);
    assert!(details.contains("        name: \"grinning face\",\n"));
    assert!(details.contains("            \"say \\\"hi\\\"\",\n"));
    assert!(details.contains("pub const ALL: &[Emoji] = &[\n"));
    assert!(details.ends_with("}\n"));
}

#[test]
fn keywords_are_read_from_cldr_xml() {
    let xml = r#"<?xml version="1.0" encoding="UTF-8"?>
<ldml>
  <annotations>
    <annotation cp="😀">face | grin |  | happy</annotation>
    <annotation cp="😀" type="tts">grinning face</annotation>
    <annotation cp="😀">ignored</annotation>
    <annotation cp="🐱" type="tts">cat</annotation>
    <annotation cp="🐱">cat | pet</annotation>
    <annotation>no code points</annotation>
  </annotations>
</ldml>"#;
    let keywords = keywords_from_xml(xml).unwrap();
    assert_eq!(
        keywords,
        vec![
            ("😀".to_string(), vec!["face".to_string(), "grin".to_string(), "happy".to_string()]),
            ("🐱".to_string(), vec!["cat".to_string(), "pet".to_string()]),
        ]
    );
}

#[test]
fn cldr_xml_errors_are_reported() {
    let unclosed = keywords_from_xml(r#"<annotations><annotation cp="x">a | b"#).unwrap_err();
    assert_eq!(unclosed, "start tag not closed: `</annotation>` not found before end of input");
    assert!(keywords_from_xml("<a></b>").is_err());
    assert_eq!(keywords_from_xml("<a/>").unwrap(), Vec::<(String, Vec<String>)>::new());
}

#[test]
fn annotation_code_points_must_be_utf8() {
    let doc = "<annotation>x</annotation>";
    let bad: Vec<(XmlEvent, u64)> = vec![
        (XmlEvent::Start(b"annotation".to_vec(), vec![Ok((b"cp".to_vec(), vec![0xff]))]), 12),
        (XmlEvent::Other(b"x".to_vec()), 13),
        (XmlEvent::End(b"annotation".to_vec()), 26),
    ];
    assert!(annotations_of(doc, &bad).is_err());
    let doc = "<annotation cp=\"a\" type=\"tts\">x<i>y</i></annotation>";
    let good: Vec<(XmlEvent, u64)> = vec![
        (
            XmlEvent::Start(
                b"annotation".to_vec(),
                vec![Ok((b"cp".to_vec(), b"a".to_vec())), Ok((b"type".to_vec(), b"tts".to_vec()))],
            ),
            30,
        ),
        (XmlEvent::Other(b"x".to_vec()), 31),
        (XmlEvent::Start(b"i".to_vec(), vec![]), 34),
        (XmlEvent::Other(b"y".to_vec()), 35),
        (XmlEvent::End(b"i".to_vec()), 39),
        (XmlEvent::End(b"annotation".to_vec()), 52),
    ];
    let anns = annotations_of(doc, &good).unwrap();
    assert_eq!(anns.len(), 1);
    assert_eq!(anns[0].cp.as_deref(), Some("a"));
    assert!(anns[0].tts);
    assert_eq!(anns[0].text, "x<i>y</i>");
    let mut failing = good.clone();
    failing.push((XmlEvent::Error("boom".to_string()), 52));
    assert_eq!(annotations_of(doc, &failing).unwrap_err(), "boom");
    let refused: Vec<(XmlEvent, u64)> = vec![
        (XmlEvent::Start(b"other".to_vec(), vec![Err("ignored".to_string())]), 5),
        (XmlEvent::End(b"other".to_vec()), 10),
        (XmlEvent::Start(b"annotation".to_vec(), vec![Err("bad attribute".to_string())]), 20),
    ];
    assert_eq!(annotations_of(doc, &refused).unwrap_err(), "bad attribute");
}

#[test]
fn annotation_text_is_read_as_it_stands() {
    let xml = r#"<ldml><annotations>
<annotation cp="x">a <b>c</b> | d<!-- e --></annotation>
<annotation cp="y"/>
<annotation cp="z">one<annotation>two</annotation>three</annotation>
</annotations></ldml>"#;
    let keywords = keywords_from_xml(xml).unwrap();
    assert_eq!(
        keywords,
        vec![
            ("x".to_string(), vec!["a <b>c</b>".to_string(), "d<!-- e -->".to_string()]),
            ("z".to_string(), vec!["one<annotation>two</annotation>three".to_string()]),
        ]
    );
}

#[test]
fn lines_keep_a_final_carriage_return() {
    assert_eq!(
        veltrix::os::unistd::subuid_by_username_raw("alice:100000:65536\r", "alice"),
        None
    );
    assert_eq!(
        veltrix::os::unistd::subuid_by_username_raw("alice:100000:65536\r\n", "alice"),
        Some((100000, 65536))
    );
}
