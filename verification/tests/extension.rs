use config_loader::{resolve, ClassificationError, Encoder, Extension};

#[test]
fn the_empty_token_and_the_environment_names_classify_to_env() {
    assert_eq!(Extension::classify(""), Ok(Extension::ENV));
    assert_eq!(Extension::classify("local"), Ok(Extension::ENV));
    assert_eq!(Extension::classify("development"), Ok(Extension::ENV));
    assert_eq!(Extension::classify("test"), Ok(Extension::ENV));
}

#[test]
fn json_and_toml_classify_to_themselves() {
    assert_eq!(Extension::classify("json"), Ok(Extension::JSON));
    assert_eq!(Extension::classify("toml"), Ok(Extension::TOML));
}

#[test]
fn yml_and_yaml_classify_to_yaml() {
    assert_eq!(Extension::classify("yml"), Ok(Extension::YAML));
    assert_eq!(Extension::classify("yaml"), Ok(Extension::YAML));
}

#[test]
fn an_unknown_token_is_handed_back() {
    assert_eq!(
        Extension::classify("xml"),
        Err(ClassificationError { token: String::from("xml") })
    );
    assert_eq!(
        Extension::classify("notaformat"),
        Err(ClassificationError { token: String::from("notaformat") })
    );
}

#[test]
fn classification_is_exact() {
    for token in ["YML", "Json", "TOML", " json", "json ", "yam", "yamll", "tes", "Local", ".json"] {
        assert_eq!(
            Extension::classify(token),
            Err(ClassificationError { token: String::from(token) })
        );
    }
}

#[test]
fn tokens_that_share_a_prefix_or_a_length_are_told_apart() {
    assert_eq!(Extension::classify("test"), Ok(Extension::ENV));
    assert_eq!(Extension::classify("toml"), Ok(Extension::TOML));
    assert_eq!(Extension::classify("tost"), Err(ClassificationError { token: String::from("tost") }));
    assert_eq!(Extension::classify("jsom"), Err(ClassificationError { token: String::from("jsom") }));
}

#[test]
fn a_token_with_wide_characters_is_handed_back_whole() {
    assert_eq!(
        Extension::classify("jsön"),
        Err(ClassificationError { token: String::from("jsön") })
    );
}

#[test]
fn each_format_has_one_canonical_suffix() {
    assert_eq!(Extension::ENV.canonical_extension(), "env");
    assert_eq!(Extension::JSON.canonical_extension(), "json");
    assert_eq!(Extension::TOML.canonical_extension(), "toml");
    assert_eq!(Extension::YAML.canonical_extension(), "yml");
}

#[test]
fn to_string_gives_the_canonical_suffix() {
    assert_eq!(Extension::ENV.to_string(), String::from("env"));
    assert_eq!(Extension::JSON.to_string(), String::from("json"));
    assert_eq!(Extension::TOML.to_string(), String::from("toml"));
    assert_eq!(Extension::YAML.to_string(), String::from("yml"));
}

#[test]
fn the_canonical_suffix_names_its_own_format() {
    for format in [Extension::JSON, Extension::TOML, Extension::YAML] {
        assert_eq!(Extension::classify(format.canonical_extension()), Ok(format));
    }
}

#[test]
fn the_suffix_of_env_is_not_a_token() {
    assert_eq!(
        Extension::classify(Extension::ENV.canonical_extension()),
        Err(ClassificationError { token: String::from("env") })
    );
}

#[test]
fn every_format_but_env_has_an_encoder() {
    assert_eq!(Extension::ENV.encoder(), None);
    assert_eq!(Extension::JSON.encoder(), Some(Encoder::JsonPretty));
    assert_eq!(Extension::TOML.encoder(), Some(Encoder::TomlPretty));
    assert_eq!(Extension::YAML.encoder(), Some(Encoder::Yaml));
}

#[test]
fn an_extension_parses_from_a_token() {
    assert_eq!("yaml".parse::<Extension>(), Ok(Extension::YAML));
    assert_eq!("".parse::<Extension>(), Ok(Extension::ENV));
    assert_eq!(
        "ini".parse::<Extension>(),
        Err(ClassificationError { token: String::from("ini") })
    );
}

#[test]
fn a_file_name_is_the_base_name_a_dot_and_the_suffix() {
    assert_eq!(resolve("app", Extension::JSON), String::from("app.json"));
    assert_eq!(resolve("app", Extension::TOML), String::from("app.toml"));
    assert_eq!(resolve("cfg", Extension::YAML), String::from("cfg.yml"));
    assert_eq!(resolve("settings", Extension::ENV), String::from("settings.env"));
}

#[test]
fn a_file_name_keeps_the_base_name_as_given() {
    assert_eq!(resolve("", Extension::JSON), String::from(".json"));
    assert_eq!(resolve("a.b", Extension::YAML), String::from("a.b.yml"));
    assert_eq!(resolve("données", Extension::TOML), String::from("données.toml"));
}
