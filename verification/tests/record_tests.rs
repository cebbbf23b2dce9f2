use std::rc::Rc;

use know::age::Age;
use know::datetime::DateTime;
use know::duration::Duration;
use know::errors::{AdapterError, FormatError};
use know::file_metadata::{FileMetadata, FileType};
use know::headers::Header;
use know::email_message::EmailMessage;
use know::instant_message::InstantMessage;
use know::instant_message_handle::InstantMessageHandle;
use know::instant_message_recipient::{InstantMessageRecipient, InstantMessageRecipientType};
use know::mime::{MimeAddress, MimeAddresses, MimeDateTime, MimeGroup, MimeMessage};
use know::person::{Person, PersonRef};

fn jsonld_str<'a>(obj: &'a know::json::JsonObject, key: &str) -> Option<&'a str> {
    obj.get(key).and_then(|f| f.as_str())
}

fn header(name: &str, value: &str) -> Header {
    Header { name: name.to_string(), value: value.to_string() }
}

#[test]
fn parents_keep_father_before_mother() {
    let father = PersonRef::parse("Ari");
    let mother = PersonRef::parse("Bea");
    let child = Person {
        father: Some(father.clone()),
        mother: Some(mother.clone()),
        ..Person::parse("Kid")
    };

    let parents = child.parents();
    assert_eq!(parents, vec![father.clone(), mother.clone()]);

    let reversed = Person {
        mother: Some(mother.clone()),
        father: Some(father.clone()),
        ..Person::parse("Kid")
    };
    assert_eq!(reversed.parents(), vec![father, mother]);

    let only_mother = Person { mother: Some(PersonRef::parse("Bea")), ..Person::parse("Kid") };
    assert_eq!(only_mother.parents(), vec![PersonRef::parse("Bea")]);
    assert_eq!(Person::parse("Kid").parents(), vec![]);
}

#[test]
fn person_accessors_take_first_elements() {
    let p = Person {
        emails: vec![
            know::email_address::EmailAddress::parse("one@x.org").unwrap(),
            know::email_address::EmailAddress::parse("two@x.org").unwrap(),
        ],
        accounts: vec!["acct1".to_string(), "acct2".to_string()],
        spouses: vec![PersonRef(Rc::new(Person::parse("Spouse")))],
        ..Person::parse("Somebody")
    };

    assert_eq!(p.email().unwrap().as_str(), "one@x.org");
    assert_eq!(p.account().unwrap(), "acct1");
    assert!(p.phone().is_none());
    assert!(p.spouse().is_some());
    assert!(p.partner().is_none());
    assert_eq!(p.what(), "A person named Somebody");

    let pref = PersonRef(Rc::new(Person { id: Some("p1".to_string()), ..p }));
    assert_eq!(pref.to_string(), "Somebody <one@x.org> (#p1)");
    assert_eq!(PersonRef::parse("Nameless").to_string(), "Nameless");
}

#[test]
fn header_list_normalizes() {
    let headers = vec![
        header("Date", "Mon, 15 Jul 2024 10:00:00 +0200"),
        header("FROM", "Foo <Foo@Bar.com>"),
        header("from", "second@x.org"),
        header("To", ""),
        header("Subject", "Greetings"),
        header("Message-ID", "<mid-9>"),
    ];

    let msg = EmailMessage::from_header_list(&headers).unwrap();
    assert_eq!(msg.date.second, 1721030400);
    assert_eq!(msg.from.len(), 2);
    assert_eq!(msg.from[0].as_str(), "foo@bar.com");
    assert_eq!(msg.from[1].as_str(), "second@x.org");
    assert!(msg.to.is_empty()); // the empty To value does not parse
    assert_eq!(msg.subject.as_deref(), Some("Greetings"));
    assert_eq!(msg.id.as_ref().map(|i| i.as_str().to_string()), Some("mid-9".into()));
    assert!(msg.bcc.is_empty());
}

#[test]
fn header_list_date_is_mandatory() {
    let no_date = vec![header("From", "a@b.com")];
    assert_eq!(
        EmailMessage::from_header_list(&no_date),
        Err(AdapterError::MissingDate)
    );

    let bad_date = vec![header("Date", "yesterday-ish")];
    assert_eq!(
        EmailMessage::from_header_list(&bad_date),
        Err(AdapterError::InvalidDate)
    );
}

#[test]
fn mime_message_normalizes() {
    let msg = MimeMessage {
        date: Some(MimeDateTime {
            year: 2024,
            month: 7,
            day: 15,
            hour: 16,
            minute: 24,
            second: 59,
            tz_before_gmt: true,
            tz_hour: 2,
            tz_minute: 0,
        }),
        from: Some(MimeAddresses::List(vec![
            MimeAddress { name: Some("Who".to_string()), address: Some("A@B.com".to_string()) },
            MimeAddress { name: None, address: None },
        ])),
        to: Some(MimeAddresses::Group(vec![MimeGroup {
            name: Some("team".to_string()),
            addresses: vec![
                MimeAddress { name: None, address: Some("X@Y.org".to_string()) },
                MimeAddress { name: None, address: Some("z@y.org".to_string()) },
            ],
        }])),
        cc: None,
        subject: Some("Hi".to_string()),
        message_id: Some("bare-id".to_string()),
        body_text: Some("Body".to_string()),
    };

    let out = EmailMessage::from_mime_message(&msg).unwrap();
    assert_eq!(out.date.second, 1721060699 + 7200); // a zone west of Greenwich lags UTC
    assert_eq!(out.date.offset_seconds, -7200);
    assert_eq!(out.from.len(), 1);
    assert_eq!(out.from[0].as_str(), "a@b.com");
    assert_eq!(out.to.len(), 2);
    assert_eq!(out.to[0].as_str(), "x@y.org");
    assert_eq!(out.id.as_ref().map(|i| i.as_str().to_string()), Some("bare-id".into()));
    assert_eq!(out.body.as_deref(), Some("Body"));
    assert!(out.bcc.is_empty());
    assert!(out.reply_to.is_empty());
    assert!(out.sender.is_none());
}

#[test]
fn mime_date_is_validated() {
    let mut msg = MimeMessage::default();
    assert_eq!(EmailMessage::from_mime_message(&msg), Err(AdapterError::MissingDate));

    msg.date = Some(MimeDateTime {
        year: 2023,
        month: 2,
        day: 29, // not a leap year
        hour: 0,
        minute: 0,
        second: 0,
        tz_before_gmt: false,
        tz_hour: 0,
        tz_minute: 0,
    });
    assert_eq!(EmailMessage::from_mime_message(&msg), Err(AdapterError::InvalidDate));

    msg.date = Some(MimeDateTime {
        year: 2024,
        month: 2,
        day: 29, // a leap year
        hour: 0,
        minute: 0,
        second: 0,
        tz_before_gmt: false,
        tz_hour: 0,
        tz_minute: 0,
    });
    let out = EmailMessage::from_mime_message(&msg).unwrap();
    assert_eq!(out.date.second, 1709164800);
}

#[test]
fn datetime_textual_forms() {
    let dt = DateTime::parse("2025-11-10T13:03:48.814+02:00").unwrap();
    assert_eq!(dt.to_string(), "2025-11-10T13:03:48.814+02:00");
    assert_eq!(dt.offset_seconds, 7200);
    assert_eq!(dt.nanosecond, 814000000);
    assert_eq!(
        DateTime::parse("not a moment"),
        Err(FormatError::InvalidDate)
    );

    let epoch = DateTime::from_unix_second(0);
    assert_eq!(epoch.to_string(), "1970-01-01T00:00:00.000+00:00");
    assert_eq!(epoch.inline().to_string(), "📅 1970-01-01 00:00:00 (+00:00)");
    assert_eq!(epoch.mime().to_string(), "Thu, 1 Jan 1970 00:00:00 +0000");
}

#[test]
fn duration_keeps_two_largest_units() {
    let d = Duration { years: 2, months: 3, days: 4, hours: 5, minutes: 6, seconds: 7 };
    assert_eq!(
        d.truncated_for_display(),
        Duration { years: 2, months: 3, ..Duration::zero() }
    );

    let d = Duration { years: 12, months: 3, ..Duration::zero() };
    assert_eq!(
        d.truncated_for_display(),
        Duration { years: 12, ..Duration::zero() }
    );

    let d = Duration { minutes: 6, seconds: 7, ..Duration::zero() };
    assert_eq!(d.truncated_for_display(), d);

    assert_eq!(Duration::zero().truncated_for_display(), Duration::zero());
    assert!(Duration::zero().round().is_some());
}

#[test]
fn instant_message_views() {
    let im = InstantMessage {
        id: None,
        date: DateTime::from_unix_second(0),
        sender: InstantMessageHandle::parse("tel:+1555").unwrap(),
        receiver: InstantMessageHandle::parse("bob").unwrap(),
        platform: None,
        references: None,
        content: "ping".to_string(),
    };

    assert_eq!(
        im.inline().to_string(),
        "1970-01-01T00:00:00.000+00:00 +1555: bob"
    );
    assert_eq!(im.to_string(), format!("{}\n", im.inline().to_string()));

    let detailed = im.detailed().to_string();
    assert!(detailed.contains("\tSender: 📞 +1555\n"));
    assert!(detailed.contains("\tReceiver: 📇 bob\n"));
    assert!(!detailed.contains("\tPlatform: "));

    let obj = im.to_jsonld();
    assert_eq!(jsonld_str(&obj, "@id"), Some("_:message"));
    assert_eq!(jsonld_str(&obj, "@type"), Some("InstantMessage"));
    assert_eq!(jsonld_str(&obj, "sender"), Some("handle:+1555"));
    assert_eq!(jsonld_str(&obj, "receiver"), Some("handle:bob"));
    assert_eq!(jsonld_str(&obj, "body"), Some("ping"));
    assert!(obj.get("platform").is_none());
}

#[test]
fn instant_message_handle_parse() {
    assert_eq!(
        InstantMessageHandle::parse("tel:+31 20 123").unwrap().as_str(),
        "+31 20 123"
    );
    assert_eq!(InstantMessageHandle::parse("  carol ").unwrap().as_str(), "carol");
    assert_eq!(InstantMessageHandle::parse("   "), Err(FormatError::Empty));

    let recipient = InstantMessageRecipient::Direct(InstantMessageHandle::parse("dave").unwrap());
    assert_eq!(recipient.as_str(), "dave");
    assert_eq!(recipient.kind(), InstantMessageRecipientType::Direct);
}

#[test]
fn age_renders_inline() {
    let age = Age::new(30);
    assert_eq!(age.as_usize(), 30);
    assert_eq!(age.inline().to_string(), "🎂 30y");
}

#[test]
fn file_metadata_test_to_jsonld_with_id() {
    let md = FileMetadata { id: Some("_:test-filemetadata-123".into()), ..Default::default() };

    let result = md.to_jsonld();
    assert_eq!(jsonld_str(&result, "@type"), Some("FileMetadata"));
    assert_eq!(jsonld_str(&result, "@id"), Some("_:test-filemetadata-123"));
    assert_eq!(jsonld_str(&result, "filetype"), Some("regular"));
}

#[test]
fn file_metadata_test_to_jsonld_without_id() {
    let md = FileMetadata::default();

    let result = md.to_jsonld();
    assert_eq!(jsonld_str(&result, "@type"), Some("FileMetadata"));
    assert_eq!(jsonld_str(&result, "@id"), Some("_:file-metadata"));
}

#[test]
fn file_metadata_views_and_kinds() {
    let md = FileMetadata {
        id: Some("file:/tmp/example".to_string()),
        size: Some(42),
        modification_date: Some(DateTime::from_unix_second(0)),
        filetype: FileType::Directory { children: vec!["one".into(), "two".into()] },
        ..Default::default()
    };

    assert_eq!(md.inline().to_string(), "📄 file:/tmp/example");
    assert_eq!(
        md.oneliner().to_string(),
        "📄 file:/tmp/example is a directory file with size 42, modified at 📅 1970-01-01 00:00:00 (+00:00)"
    );
    assert_eq!(
        FileMetadata::default().inline().to_string(),
        "📄 <unknown file>"
    );

    let rendered = md.jsonld().to_string();
    let parsed: serde_json::Value = serde_json::from_str(rendered.trim_end()).unwrap();
    assert_eq!(parsed["filetype"], "directory");
    assert_eq!(parsed["children"][0], "one");
    assert_eq!(parsed["size"], 42);
    assert!(parsed.get("owner").is_none());

    let link = FileMetadata {
        filetype: FileType::Symlink { target: "file:/path/to/target".into() },
        ..Default::default()
    };
    let parsed: serde_json::Value =
        serde_json::from_str(link.jsonld().to_string().trim_end()).unwrap();
    assert_eq!(parsed["filetype"], "symlink");
    assert_eq!(parsed["target"], "file:/path/to/target");
}

#[test]
fn meta_descriptors_keep_their_parts() {
    let strings = know::meta::LangStrings::new();
    assert_eq!(strings.en, "");

    let prop = know::meta::Property::new(
        Some("id".to_string()),
        Some("range".to_string()),
        None,
        None,
        None,
    );
    assert_eq!(prop.id.as_deref(), Some("id"));
    assert_eq!(prop.range.as_deref(), Some("range"));

    let class = know::meta::Class::new(
        "Thing".to_string(),
        None,
        Some("✨".to_string()),
        None,
        None,
        None,
        None,
    );
    assert_eq!(class.id, "Thing");
    assert_eq!(class.glyph.as_deref(), Some("✨"));
    assert_eq!(know::meta::LangTag::default(), know::meta::LangTag::English);
}
