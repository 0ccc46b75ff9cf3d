use rcli::opts::csv;
use rcli::opts::{validate_input_file, verify_file, verify_path};
use rcli::{Base64Format, Error, OutputFormat, TextSignFormat};

#[test]
fn test_verify_file() {
    // The locator check takes what the file system reported of the name.
    assert_eq!(verify_file("-", false), Ok("-".into()));
    assert_eq!(verify_file("Cargo.toml", true), Ok("Cargo.toml".into()));
    assert_eq!(verify_file("nonexistent", false), Err("File does not exist"));
}

#[test]
fn test_verify_path() {
    assert_eq!(verify_path(".", true, true), Ok(".".into()));
    assert_eq!(
        verify_path("nonexistent", false, false),
        Err("Path does not exist or is not a directory")
    );
    assert_eq!(
        verify_path("Cargo.toml", true, false),
        Err("Path does not exist or is not a directory")
    );
}

#[test]
fn test_validate_input_file() {
    assert_eq!(validate_input_file("Cargo.toml", true), Ok("Cargo.toml".into()));
    assert_eq!(validate_input_file("-", false), Err("File does not exist"));
}

#[test]
fn test_parse_text_sign_format() {
    assert_eq!("blake3".parse::<TextSignFormat>(), Ok(TextSignFormat::Blake3));
    assert_eq!("ed25519".parse::<TextSignFormat>(), Ok(TextSignFormat::Ed25519));
    assert_eq!("Blake3".parse::<TextSignFormat>(), Err(Error::UnsupportedScheme));
    assert_eq!("hmac".parse::<TextSignFormat>(), Err(Error::UnsupportedScheme));
    assert_eq!(TextSignFormat::Blake3.as_str(), "blake3");
    assert_eq!(TextSignFormat::Ed25519.as_str(), "ed25519");
}

#[test]
fn test_parse_output_format() {
    assert_eq!("json".parse::<OutputFormat>(), Ok(OutputFormat::Json));
    assert_eq!("YAML".parse::<OutputFormat>(), Ok(OutputFormat::Yaml));
    assert_eq!("Toml".parse::<OutputFormat>(), Ok(OutputFormat::Toml));
    assert_eq!("csv".parse::<OutputFormat>(), Err(Error::UnsupportedScheme));
    assert_eq!(OutputFormat::Json.as_str(), "json");
}

#[test]
fn test_parse_base64_format() {
    assert_eq!("standard".parse::<Base64Format>(), Ok(Base64Format::Standard));
    assert_eq!("STANDARD".parse::<Base64Format>(), Ok(Base64Format::Standard));
    assert_eq!("urlsafe".parse::<Base64Format>(), Ok(Base64Format::UrlSafe));
    assert_eq!("URL_SAFE".parse::<Base64Format>(), Ok(Base64Format::UrlSafe));
    assert_eq!("url safe".parse::<Base64Format>(), Ok(Base64Format::UrlSafe));
    assert_eq!("base32".parse::<Base64Format>(), Err(Error::UnsupportedScheme));
}

#[test]
fn test_resolve_output_name() {
    let name = csv::resolve_output_name(Some(b"data".to_vec()), OutputFormat::Json);
    assert_eq!(name, b"data.json".to_vec());
    let name = csv::resolve_output_name(Some(b"data.json".to_vec()), OutputFormat::Json);
    assert_eq!(name, b"data.json".to_vec());
    let name = csv::resolve_output_name(Some(b"datajson".to_vec()), OutputFormat::Json);
    assert_eq!(name, b"datajson".to_vec());
    let name = csv::resolve_output_name(None, OutputFormat::Toml);
    assert_eq!(name, b"output.toml".to_vec());
}

#[test]
fn test_toml_table_name() {
    let name = csv::toml_table_name(&b"dir/data.csv".to_vec(), b'/');
    assert_eq!(name, b"data".to_vec());
    let name = csv::toml_table_name(&b"data.a.b".to_vec(), b'/');
    assert_eq!(name, b"data".to_vec());
    let name = csv::toml_table_name(&b"plain".to_vec(), b'/');
    assert_eq!(name, b"plain".to_vec());
    let name = csv::toml_table_name(&b".hidden".to_vec(), b'/');
    assert_eq!(name, b"".to_vec());
    let name = csv::toml_table_name(&b"dir/".to_vec(), b'/');
    assert_eq!(name, b"".to_vec());
}
