use bm2::grammar::{matches_description, matches_description_line, matches_id, matches_name};
use bm2::manifest::{
    is_default, schema, Dependency, Links, Manifest, OldManifest, Publish, ValidityError, SCHEMA,
};
use bm2::version::Version;
use serde_json::Value;

fn text(value: &Value, key: &str) -> String {
    value[key].as_str().expect("a text").to_string()
}

fn optional_text(value: &Value, key: &str) -> Option<String> {
    value.get(key).and_then(|v| v.as_str()).map(|s| s.to_string())
}

fn texts(value: &Value, key: &str) -> Option<Vec<String>> {
    value.get(key).and_then(|v| v.as_array()).map(|items| {
        items.iter().map(|item| item.as_str().expect("a text").to_string()).collect()
    })
}

fn dependencies(value: &Value, key: &str) -> Option<Vec<Dependency>> {
    value.get(key).and_then(|v| v.as_object()).map(|entries| {
        entries
            .iter()
            .map(|(id, requirement)| Dependency {
                id: id.clone(),
                requirement: requirement.as_str().expect("a text").to_string(),
            })
            .collect()
    })
}

fn parse(source: &str) -> Result<Manifest, String> {
    let value: Value = serde_json::from_str(source).map_err(|e| e.to_string())?;
    let links = value.get("links").cloned().unwrap_or(Value::Null);
    let publish = value.get("publish").cloned().unwrap_or(Value::Null);
    Ok(Manifest {
        schema: optional_text(&value, "$schema").unwrap_or(schema()),
        id: text(&value, "id"),
        name: text(&value, "name"),
        version: Version::parse(&text(&value, "version")).ok_or("no version")?,
        game_version: text(&value, "gameVersion"),
        description: texts(&value, "description").ok_or("no description")?,
        author: text(&value, "author"),
        license: text(&value, "license"),
        depends_on: dependencies(&value, "dependsOn"),
        conflicts_with: dependencies(&value, "conflictsWith"),
        load_after: texts(&value, "loadAfter"),
        load_before: texts(&value, "loadBefore"),
        features: texts(&value, "features"),
        icon: optional_text(&value, "icon"),
        links: Links {
            project_home: optional_text(&links, "project-home"),
            project_source: optional_text(&links, "project-source"),
            donate: optional_text(&links, "donate"),
        },
        publish: Publish {
            script: texts(&publish, "script").unwrap_or_default(),
            resource: optional_text(&publish, "resource"),
        },
        readme: optional_text(&value, "readme"),
    })
}

fn example() -> Manifest {
    Manifest {
        schema: schema(),
        id: "ExampleMod".to_string(),
        name: "Example Mod".to_string(),
        version: Version::parse("1.2.3").unwrap(),
        game_version: "0.13.2".to_string(),
        description: vec!["This is an example mod.".to_string(), String::new()],
        author: "DaNike".to_string(),
        license: "MIT".to_string(),
        depends_on: None,
        conflicts_with: None,
        load_after: None,
        load_before: None,
        features: None,
        icon: None,
        links: Links {
            project_home: Some("https://example.org/home".to_string()),
            project_source: None,
            donate: None,
        },
        publish: Publish::default(),
        readme: None,
    }
}

#[test]
fn validation() {
    let valid_source = r#"
        {
          "$schema": "https://raw.githubusercontent.com/raftario/BSIPA-MetadataFileSchema/master/Schema.json",
          "name": "Example Mod",
          "id": "ExampleMod",
          "description": [
            "This is an example mod.",
            "",
            "It has a multiline description."
          ],
          "version": "1.2.3",
          "gameVersion": "0.13.2",
          "author": "DaNike",
          "license": "MIT",
          "dependsOn": {
            "SongCore": "^2.5.1"
          },
          "conflictsWith": {
            "CameraPlus": "^3.5.7"
          },
          "loadAfter": ["SongCore"],
          "loadBefore": ["ScoreSaber"],
          "features": [],
          "links": {
            "project-source": "https://github.com/raftario/BSIPA-MetadataFileSchema/blob/master/Schema.json",
            "project-home": "https://github.com/raftario/BSIPA-MetadataFileSchema/blob/master/Example.json"
          },
          "publish": {
            "script": ["msbuild ExampleMod/ExampleMod.csproj"],
            "resource": "ExampleMod/bin/"
          },
          "readme": "README.md",
          "icon": "ExampleMod/icon.png"
        }
        "#;
    let valid_deserialised = parse(valid_source).expect("Can't deserialise manifest");
    assert!(valid_deserialised.validate(false).is_ok());

    let invalid_source = r#"
        {
          "$schema": "https://raw.githubusercontent.com/raftario/BSIPA-MetadataFileSchema/master/Schema.json",
          "name": "Example Mod\n",
          "id": "example-mod",
          "description": [
            "This is an example mod.",
            "\n",
            "It has a multiline description."
          ],
          "version": "1.2.3",
          "gameVersion": "0.13.2",
          "author": "DaNike",
          "license": "SEE LICENSE IN LICENSE.txt",
          "dependsOn": {
            "SongCore": "^2.5.1"
          },
          "conflictsWith": {
            "CameraPlus": "^3.5.7"
          },
          "loadAfter": ["SongCore"],
          "loadBefore": ["ScoreSaber"],
          "features": [],
          "links": {},
          "publish": {
            "script": ["msbuild ExampleMod/ExampleMod.csproj"],
            "resource": "ExampleMod/bin/"
          },
          "readme": "README.md",
          "icon": "ExampleMod/icon.png"
        }
        "#;
    let invalid_deserialised = parse(invalid_source).expect("Can't deserialise manifest");
    assert!(invalid_deserialised.validate(false).is_err());
    assert!(invalid_deserialised.validate(true).is_err());
}

#[test]
fn rules_are_checked_in_order() {
    let mut m = example();
    assert_eq!(m.validate(true), Ok(()));
    m.license = "SEE LICENSE IN LICENSE.txt".to_string();
    assert_eq!(m.validate(true), Ok(()));
    assert_eq!(m.validate(false), Err(ValidityError::InvalidLicense));
    m.links = Links::default();
    assert_eq!(m.validate(false), Err(ValidityError::InvalidLinks));
    m.description.push("two\nlines".to_string());
    assert_eq!(m.validate(false), Err(ValidityError::InvalidDescription));
    m.name = "tab\there".to_string();
    assert_eq!(m.validate(false), Err(ValidityError::InvalidName));
    m.id = "example-mod".to_string();
    assert_eq!(m.validate(false), Err(ValidityError::InvalidId));
}

#[test]
fn source_link_alone_is_enough() {
    let mut m = example();
    m.links = Links {
        project_home: None,
        project_source: Some("https://example.org/source".to_string()),
        donate: None,
    };
    assert_eq!(m.validate(false), Ok(()));
    m.links = Links {
        project_home: None,
        project_source: None,
        donate: Some("https://example.org/donate".to_string()),
    };
    assert_eq!(m.validate(false), Err(ValidityError::InvalidLinks));
}

#[test]
fn license_file_is_the_text_without_the_mark() {
    let mut m = example();
    assert_eq!(m.license_file(), None);
    m.license = "SEE LICENSE IN LICENSE.txt".to_string();
    assert_eq!(m.license_file(), Some("LICENSE.txt".to_string()));
    m.license = "SEE LICENSE IN docs/SEE LICENSE IN there".to_string();
    assert_eq!(m.license_file(), Some("docs/there".to_string()));
    m.license = "see license in LICENSE.txt".to_string();
    assert_eq!(m.license_file(), None);
    m.license = "MIT SEE LICENSE IN x".to_string();
    assert_eq!(m.license_file(), None);
    m.license = "SEE LICENSE IN ".to_string();
    assert_eq!(m.license_file(), Some(String::new()));
}

#[test]
fn identifiers_follow_the_namespace_convention() {
    let regex = regex::Regex::new(r#"^([A-Z][0-9a-z]*)+(\.([A-Z][0-9a-z]*)+)*$"#).unwrap();
    let samples = [
        "ExampleMod", "A", "A1", "AB", "Ab.Cd", "A.B.C", "SongCore", "X9z.Y8", "", "a", "example",
        "example-mod", "Example Mod", "Example.", ".Example", "Example..Mod", "Example.mod",
        "1Example", "Example_Mod", "Exämple", "A.b", "A.1", "A\n", "A.B\n", "É",
    ];
    for sample in samples {
        assert_eq!(matches_id(sample), regex.is_match(sample), "{:?}", sample);
    }
    assert!(matches_id("ExampleMod"));
    assert!(matches_id("Ab.Cd"));
    assert!(!matches_id("example-mod"));
    assert!(!matches_id("Example."));
}

#[test]
fn names_have_no_tabs_or_line_breaks() {
    let regex = regex::Regex::new(r#"^[^\n\r\t]+$"#).unwrap();
    let samples =
        ["Example Mod", "x", "", "Example Mod\n", "a\tb", "a\rb", "\n", "ünïcode", "a\nb", " "];
    for sample in samples {
        assert_eq!(matches_name(sample), regex.is_match(sample), "{:?}", sample);
    }
    assert!(matches_name("Example Mod"));
    assert!(!matches_name(""));
    assert!(!matches_name("Example Mod\n"));
}

#[test]
fn description_lines_have_no_line_breaks() {
    let regex = regex::Regex::new(r#"^[^\n\r]*$"#).unwrap();
    let samples = ["This is an example mod.", "", "\n", "a\rb", "a\tb", "line\n", "ünïcode"];
    for sample in samples {
        assert_eq!(matches_description_line(sample), regex.is_match(sample), "{:?}", sample);
    }
    assert!(matches_description(&vec!["one".to_string(), String::new(), "a\tb".to_string()]));
    assert!(!matches_description(&vec!["one".to_string(), "\n".to_string()]));
    assert!(matches_description(&Vec::new()));
}

#[test]
fn every_validity_error_has_its_message() {
    assert_eq!(
        ValidityError::InvalidId.to_string(),
        "Invalid manifest ID, it should follow the C# namespace naming convention"
    );
    assert_eq!(
        ValidityError::InvalidName.to_string(),
        "Invalid manifest name, it should not contain tabs or newlines"
    );
    assert_eq!(
        ValidityError::InvalidDescription.to_string(),
        "Invalid manifest description, it should not contain newlines"
    );
    assert_eq!(
        ValidityError::InvalidLinks.to_string(),
        "Invalid manifest links, at least `project-home` or `project-source` should be specified"
    );
    assert_eq!(
        ValidityError::InvalidLicense.to_string(),
        "Invalid manifest license, the license file should exist"
    );
}

#[test]
fn migration_takes_every_field_over() {
    let old = OldManifest {
        id: "old-id".to_string(),
        name: "Old".to_string(),
        version: Version::parse("0.9.1").unwrap(),
        game_version: "0.12.0".to_string(),
        description: vec!["first".to_string(), "second".to_string()],
        author: "someone".to_string(),
        depends_on: Some(vec![Dependency {
            id: "SongCore".to_string(),
            requirement: "^2.5.1".to_string(),
        }]),
        conflicts_with: None,
        load_after: Some(vec!["SongCore".to_string()]),
        load_before: None,
        features: Some(Vec::new()),
        icon: Some("icon.png".to_string()),
        links: Links {
            project_home: None,
            project_source: Some("https://example.org/source".to_string()),
            donate: None,
        },
    };
    let new = Manifest::from((old, "MIT".to_string()));
    assert_eq!(new.schema, SCHEMA);
    assert_eq!(new.id, "old-id");
    assert_eq!(new.name, "Old");
    assert_eq!(new.version.to_string(), "0.9.1");
    assert_eq!(new.game_version, "0.12.0");
    assert_eq!(new.description, vec!["first", "second"]);
    assert_eq!(new.author, "someone");
    assert_eq!(new.license, "MIT");
    let depends_on = new.depends_on.as_ref().expect("dependencies");
    assert_eq!(depends_on.len(), 1);
    assert_eq!((depends_on[0].id.as_str(), depends_on[0].requirement.as_str()), ("SongCore", "^2.5.1"));
    assert!(new.conflicts_with.is_none());
    assert_eq!(new.load_after, Some(vec!["SongCore".to_string()]));
    assert!(new.load_before.is_none());
    assert_eq!(new.features, Some(Vec::new()));
    assert_eq!(new.icon.as_deref(), Some("icon.png"));
    assert_eq!(new.links.project_source.as_deref(), Some("https://example.org/source"));
    assert!(new.links.project_home.is_none());
    assert!(new.publish.script.is_empty());
    assert!(new.publish.resource.is_none());
    assert!(new.readme.is_none());
    assert_eq!(new.validate(false), Err(ValidityError::InvalidId));
}

#[test]
fn schema_is_the_published_address() {
    assert_eq!(
        schema(),
        "https://raw.githubusercontent.com/raftario/BSIPA-MetadataFileSchema/master/Schema.json"
    );
}

#[test]
fn default_values_are_recognised() {
    assert!(is_default(&0u32));
    assert!(!is_default(&3u32));
    assert!(is_default(&String::new()));
    assert!(!is_default(&"x".to_string()));
    assert!(is_default(&Vec::<String>::new()));
    assert!(is_default(&None::<bool>));
    assert!(!is_default(&true));
}

#[test]
fn defaults_are_empty() {
    let links = Links::default();
    assert!(links.project_home.is_none() && links.project_source.is_none() && links.donate.is_none());
    let publish = Publish::default();
    assert!(publish.script.is_empty() && publish.resource.is_none());
}
