use paste_rs::api::{Outcome, Paste};
use paste_rs::cli::{created_notice, framed, saved_notice, Cli, Commands, Plan};
use paste_rs::error::PasteError;

#[test]
fn get_plans_a_fetch() {
    let cli = Cli { command: Commands::Get { output: None, val: "paste.rs/osx".to_string() } };
    assert_eq!(
        cli.plan(),
        Ok(Plan::Fetch { paste: Paste { id: "osx".to_string(), outcome: None }, output: None })
    );
    let cli = Cli {
        command: Commands::Get { output: Some("out.txt".to_string()), val: "osx".to_string() },
    };
    assert_eq!(
        cli.plan(),
        Ok(Plan::Fetch {
            paste: Paste { id: "osx".to_string(), outcome: None },
            output: Some("out.txt".to_string()),
        })
    );
}

#[test]
fn get_fails_as_resolving_does() {
    let cli = Cli { command: Commands::Get { output: None, val: "hello".to_string() } };
    assert_eq!(cli.plan(), Err(PasteError::InvalidArguments));
    let cli = Cli {
        command: Commands::Get { output: None, val: "https://example.com/osx".to_string() },
    };
    assert_eq!(cli.plan(), Err(PasteError::InvalidUrl));
}

#[test]
fn new_plans_an_upload() {
    let cli = Cli { command: Commands::New { file: "hello".to_string() } };
    assert_eq!(cli.plan(), Ok(Plan::Upload { file: "hello".to_string() }));
}

#[test]
fn notice_of_a_written_file() {
    let paste = Paste::from("osx").unwrap();
    assert_eq!(
        saved_notice(&paste, "out/osx.txt"),
        "Successfully wrote https://paste.rs/osx to out/osx.txt"
    );
}

#[test]
fn content_in_its_frame() {
    let paste = Paste::from("osx").unwrap();
    assert_eq!(
        framed(&paste, "line"),
        format!(
            "====\thttps://paste.rs/osx\t{}\n\nline\n\n{}\n",
            "=".repeat(54),
            "=".repeat(86)
        )
    );
}

#[test]
fn notice_of_a_new_paste() {
    let paste = Paste { id: "abc".to_string(), outcome: Some(Outcome::Created) };
    assert_eq!(created_notice(&paste), "Successfully created new paste at https://paste.rs/abc");
    let paste = Paste { id: "abc".to_string(), outcome: Some(Outcome::PartiallyCreated) };
    assert_eq!(
        created_notice(&paste),
        "FILE TOO BIG\nPastialy created new paste at https://paste.rs/abc"
    );
}

#[test]
fn error_messages() {
    assert_eq!(PasteError::InvalidUrl.message(), "Invalid Url");
    assert_eq!(PasteError::InvalidArguments.message(), "Invalid Arguments");
    assert_eq!(PasteError::TransportError("timed out".to_string()).message(), "timed out");
    assert_eq!(
        PasteError::RemoteError { status: 404, body: "not found".to_string() }.message(),
        "Remote Error 404: not found"
    );
}

#[test]
fn error_message_writes_the_status_in_decimal() {
    for (status, text) in [(0u16, "0"), (7, "7"), (10, "10"), (500, "500"), (1000, "1000"), (65535, "65535")] {
        assert_eq!(
            PasteError::RemoteError { status, body: String::new() }.message(),
            format!("Remote Error {}: ", text)
        );
    }
}

#[test]
fn numbers_in_decimal() {
    assert_eq!(paste_rs::text::decimal_text(0), "0");
    assert_eq!(paste_rs::text::decimal_text(9), "9");
    assert_eq!(paste_rs::text::decimal_text(206), "206");
    assert_eq!(paste_rs::text::decimal_text(12345), "12345");
    assert_eq!(paste_rs::text::decimal_text(60708), "60708");
    assert_eq!(paste_rs::text::decimal_text(65535), "65535");
}

#[test]
fn error_sources() {
    assert_eq!(
        PasteError::TransportError("timed out".to_string()).source(),
        Some("timed out".to_string())
    );
    assert_eq!(PasteError::InvalidUrl.source(), None);
    assert_eq!(PasteError::InvalidArguments.source(), None);
    assert_eq!(PasteError::RemoteError { status: 500, body: String::new() }.source(), None);
}
