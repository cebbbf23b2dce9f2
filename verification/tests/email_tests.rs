use know::datetime::DateTime;
use know::email_address::EmailAddress;
use know::email_message::EmailMessage;
use know::email_message_id::EmailMessageId;
use know::errors::{AdapterError, FormatError};
use know::imap::{ImapAddress, ImapEnvelope};

fn jsonld_str<'a>(obj: &'a know::json::JsonObject, key: &str) -> Option<&'a str> {
    obj.get(key).and_then(|f| f.as_str())
}

fn sample_message() -> EmailMessage {
    EmailMessage {
        date: DateTime::from_fields(1721030400, 0, 7200),
        from: vec![EmailAddress::parse("a@b.com").unwrap()],
        sender: None,
        reply_to: vec![],
        to: vec![],
        cc: vec![],
        bcc: vec![],
        subject: Some("Hello".to_string()),
        id: None,
        in_reply_to: vec![],
        references: vec![],
        body: None,
    }
}

#[test]
fn email_address_parse_normalizes() {
    let a = EmailAddress::parse(" <Foo@Bar.com> ").unwrap();
    assert_eq!(a.as_str(), "foo@bar.com");
    assert_eq!(EmailAddress::parse(""), Err(FormatError::Empty));
    assert_eq!(EmailAddress::parse("  \t "), Err(FormatError::Empty));
    assert_eq!(
        EmailAddress::parse("Plain@Example.COM").unwrap().as_str(),
        "plain@example.com"
    );
}

#[test]
fn email_message_id_parse_requires_brackets() {
    let id = EmailMessageId::parse("<abc123>").unwrap();
    assert_eq!(id.as_str(), "abc123");
    assert_eq!(
        EmailMessageId::parse("abc123"),
        Err(FormatError::MissingBrackets)
    );
    assert_eq!(EmailMessageId::parse(""), Err(FormatError::Empty));
    assert_eq!(EmailMessageId::new("bare".to_string()).as_str(), "bare");
}

#[test]
fn imap_envelope_normalizes() {
    let env = ImapEnvelope {
        date: Some(b"Mon, 15 Jul 2024 10:00:00 +0200".to_vec()),
        from: Some(vec![ImapAddress {
            mailbox: Some(b"a".to_vec()),
            host: Some(b"b.com".to_vec()),
        }]),
        subject: Some(b"Greetings".to_vec()),
        ..Default::default()
    };

    let msg = EmailMessage::from_imap_envelope(&env).unwrap();
    assert_eq!(msg.bcc, vec![]);
    assert_eq!(msg.from.len(), 1);
    assert_eq!(msg.from[0].as_str(), "a@b.com");
    assert_eq!(msg.date.second, 1721030400);
    assert_eq!(msg.date.offset_seconds, 7200);
    assert_eq!(msg.subject.as_deref(), Some("Greetings"));
    assert_eq!(msg.id, None);
    assert!(msg.in_reply_to.is_empty());
    assert!(msg.references.is_empty());
}

#[test]
fn imap_envelope_date_is_mandatory() {
    let env = ImapEnvelope::default();
    assert_eq!(
        EmailMessage::from_imap_envelope(&env),
        Err(AdapterError::MissingDate)
    );

    let bad = ImapEnvelope { date: Some(b"not a date".to_vec()), ..Default::default() };
    assert_eq!(
        EmailMessage::from_imap_envelope(&bad),
        Err(AdapterError::InvalidDate)
    );
    assert_eq!(AdapterError::MissingDate.message(), "missing mandatory date");
    assert_eq!(AdapterError::InvalidDate.message(), "invalid mandatory date");
}

#[test]
fn imap_envelope_drops_unparsable_entries() {
    let env = ImapEnvelope {
        date: Some(b"Mon, 15 Jul 2024 10:00:00 +0200".to_vec()),
        to: Some(vec![
            ImapAddress { mailbox: Some(b"x".to_vec()), host: None },
            ImapAddress { mailbox: Some(b"y".to_vec()), host: Some(b"z.org".to_vec()) },
        ]),
        sender: Some(vec![
            ImapAddress { mailbox: None, host: Some(b"q".to_vec()) },
            ImapAddress { mailbox: Some(b"S".to_vec()), host: Some(b"T.NET".to_vec()) },
        ]),
        ..Default::default()
    };

    let msg = EmailMessage::from_imap_envelope(&env).unwrap();
    assert_eq!(msg.to.len(), 1);
    assert_eq!(msg.to[0].as_str(), "y@z.org");
    assert_eq!(msg.sender.as_ref().map(|a| a.as_str().to_string()), Some("s@t.net".into()));
}

#[test]
fn email_views_render() {
    let msg = sample_message();
    let inline = msg.inline().to_string();
    assert_eq!(inline, "2024-07-15T10:00:00.000+02:00 a@b.com: Hello");
    assert_eq!(msg.oneliner().to_string(), format!("{}\n", inline));
    assert_eq!(msg.to_string(), format!("{}\n", inline));

    let concise = msg.concise().to_string();
    assert!(concise.starts_with("✉️  Hello\n\tDate: 📅 2024-07-15 10:00:00 (+02:00)\n"));
    assert!(concise.contains("\tFrom: 📧 a@b.com\n"));

    let detailed = msg.detailed().to_string();
    assert!(detailed.contains("\tFrom: 📧 a@b.com\n"));

    let mime = msg.mime().to_string();
    assert!(mime.starts_with("Date: Mon, 15 Jul 2024 10:00:00 +0200\n"));
    assert!(mime.contains("From: a@b.com\n"));
    assert!(mime.contains("Subject: Hello\n"));
}

#[test]
fn concise_view_omits_empty_recipient_lines() {
    let msg = sample_message();
    let concise = msg.concise().to_string();
    assert!(!concise.contains("\tTo: "));
    assert!(!concise.contains("\tCc: "));
    assert!(!concise.contains("\tBcc: "));
    assert!(concise.contains("\tDate: "));
    assert!(concise.contains("\tFrom: "));
}

#[test]
fn jsonld_omits_empty_fields() {
    let msg = sample_message();
    let obj = msg.to_jsonld();
    assert_eq!(jsonld_str(&obj, "@type"), Some("EmailMessage"));
    assert_eq!(jsonld_str(&obj, "@id"), Some("_:message"));
    assert_eq!(jsonld_str(&obj, "date"), Some("2024-07-15T10:00:00.000+02:00"));
    assert_eq!(jsonld_str(&obj, "subject"), Some("Hello"));
    assert!(obj.get("from").is_some());
    assert!(obj.get("sender").is_none());
    assert!(obj.get("replyTo").is_none());
    assert!(obj.get("to").is_none());
    assert!(obj.get("cc").is_none());
    assert!(obj.get("bcc").is_none());
    assert!(obj.get("id").is_none());
    assert!(obj.get("inReplyTo").is_none());
    assert!(obj.get("references").is_none());
    assert!(obj.get("body").is_none());
}

#[test]
fn jsonld_includes_populated_fields() {
    let mut msg = sample_message();
    msg.id = Some(EmailMessageId::new("mid-1".to_string()));
    msg.to = vec![EmailAddress::parse("c@d.org").unwrap()];
    msg.body = Some("Text".to_string());

    let obj = msg.to_jsonld();
    assert_eq!(jsonld_str(&obj, "@id"), Some("mid:mid-1"));
    assert_eq!(jsonld_str(&obj, "id"), Some("mid:mid-1"));
    assert_eq!(jsonld_str(&obj, "body"), Some("Text"));
    assert!(obj.get("to").is_some());

    let rendered = msg.jsonld().to_string();
    let parsed: serde_json::Value = serde_json::from_str(rendered.trim_end()).unwrap();
    assert_eq!(parsed["@type"], "EmailMessage");
    assert_eq!(parsed["from"][0], "mailto:a@b.com");
    assert_eq!(parsed["to"][0], "mailto:c@d.org");
    assert_eq!(parsed["id"], "mid:mid-1");
    assert_eq!(parsed["subject"], "Hello");
    assert!(parsed.get("cc").is_none());
}

#[test]
fn jsonld_escapes_text() {
    let mut msg = sample_message();
    msg.subject = Some("a\"b\\c\nd\te".to_string());
    let rendered = msg.jsonld().to_string();
    let parsed: serde_json::Value = serde_json::from_str(rendered.trim_end()).unwrap();
    assert_eq!(parsed["subject"], "a\"b\\c\nd\te");
}

#[test]
fn what_builds_summary() {
    let msg = sample_message();
    let summary = msg.what_summary("2 days");
    assert_eq!(
        summary,
        "An email message dated 2 days ago, from a@b.com, with the subject \"Hello\""
    );

    let live = msg.what().unwrap();
    assert!(live.starts_with("An email message dated "));
    assert!(live.ends_with(", from a@b.com, with the subject \"Hello\""));
}
