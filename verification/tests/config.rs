use fiff::config::{Config, UnrecognizedTag};
use fiff::enums::DataTagKind;
use fiff::tag::{read_tag_dict, TagDef};
use std::path::PathBuf;

fn def(code: i32, name: &str, dtype: &str, unit: &str, description: &str) -> TagDef {
    TagDef {
        code,
        name: name.to_string(),
        dtype: dtype.to_string(),
        unit: unit.to_string(),
        description: description.to_string(),
    }
}

fn table() -> Vec<TagDef> {
    vec![
        def(100, "file_id", "id_t", "-", "File identifier"),
        def(104, "block_start", "int32", "-", "Start of a block"),
        def(200, "nchan", "int32", "-", "Number of channels"),
        def(201, "sfreq", "float", "Hz", "Sampling frequency"),
        def(7, "mystery", "void", "-", "Not a tag of this library"),
        def(220, "bad_chs", "string", "-", "List of bad channels"),
        def(204, "sfreq", "int32", "-", "Measurement date"),
    ]
}

fn files() -> Vec<PathBuf> {
    vec!["a.fif".into(), "b.fif".into()]
}

#[test]
fn the_dictionary_holds_the_known_data_tags() {
    let dict = read_tag_dict(table());
    assert_eq!(dict.get(&"nchan".to_string()).map(|d| d.code), Some(200));
    assert_eq!(dict.get(&"file_id".to_string()).map(|d| d.code), Some(100));
    assert_eq!(dict.get(&"bad_chs".to_string()).map(|d| d.describe()),
        Some("bad_chs (string): List of bad channels (-)".to_string()));
    assert!(dict.get(&"block_start".to_string()).is_none());
    assert!(dict.get(&"mystery".to_string()).is_none());
    assert!(dict.get(&"Nchan".to_string()).is_none());
    assert!(dict.get(&"".to_string()).is_none());
}

#[test]
fn a_later_entry_replaces_an_earlier_of_the_same_name() {
    let dict = read_tag_dict(table());
    assert_eq!(dict.get(&"sfreq".to_string()).map(|d| d.code), Some(204));
    let mut shadowed = table();
    shadowed.push(def(7, "nchan", "void", "-", "unknown code, same name"));
    let dict = read_tag_dict(shadowed);
    assert_eq!(dict.get(&"nchan".to_string()).map(|d| d.code), Some(200));
}

#[test]
fn a_configuration_names_the_kinds_asked_for() {
    let dict = read_tag_dict(table());
    let config = Config::new(
        files(),
        true,
        vec!["bad_chs".to_string(), "file_id".to_string(), "nchan".to_string()],
        false,
        &dict,
    )
    .unwrap();
    assert_eq!(config.files, files());
    assert!(config.show_tree);
    assert_eq!(
        config.query_codes,
        vec![DataTagKind::BadChs, DataTagKind::FileId, DataTagKind::Nchan]
    );
    assert!(config.describe_tags.is_empty());
}

#[test]
fn a_configuration_describes_the_tags_when_asked_to() {
    let dict = read_tag_dict(table());
    let config =
        Config::new(files(), false, vec!["sfreq".to_string(), "nchan".to_string()], true, &dict)
            .unwrap();
    assert!(!config.show_tree);
    assert_eq!(config.query_codes, vec![DataTagKind::MeasDate, DataTagKind::Nchan]);
    let lines: Vec<String> = config.describe_tags.iter().map(|d| d.describe()).collect();
    assert_eq!(
        lines,
        vec![
            "sfreq (int32): Measurement date (-)".to_string(),
            "nchan (int32): Number of channels (-)".to_string(),
        ]
    );
}

#[test]
fn a_configuration_may_ask_for_nothing() {
    let dict = read_tag_dict(vec![]);
    let config = Config::new(vec![], false, vec![], true, &dict).unwrap();
    assert!(config.files.is_empty());
    assert!(config.query_codes.is_empty());
    assert!(config.describe_tags.is_empty());
}

#[test]
fn the_first_unknown_name_is_the_error() {
    let dict = read_tag_dict(table());
    let asked = vec![
        "nchan".to_string(),
        "block_start".to_string(),
        "sfreq".to_string(),
        "nonsense".to_string(),
    ];
    assert_eq!(
        Config::new(files(), false, asked, true, &dict).err(),
        Some(UnrecognizedTag { name: "block_start".to_string() })
    );
}

#[test]
fn the_default_entry_is_the_unknown_tag() {
    let unknown = TagDef::default();
    assert_eq!(unknown.code, 0);
    assert_eq!(unknown.name, "unknown");
    assert_eq!(unknown.describe(), "unknown (unknown): Unrecognized tag (unknown)");
    let copy = unknown.duplicate();
    assert_eq!(copy.describe(), unknown.describe());
}
