use ietfdata::{
    retrieve, DTResult, Datatracker, DocState, DocStateType, DocStateTypeUri, DocStateUri, Email,
    EmailUri, HistoricalEmail, HistoricalEmailUri, HistoricalPerson, HistoricalPersonUri, Lookup,
    Meta, Page, PaginatedList, Person, PersonAlias, PersonAliasUri, PersonUri, Step, Timestamp,
    API_ORIGIN,
};

// A canned server: it checks each request that the library makes and answers
// it from records held in memory.

/// Answers a single-resource request: the record with status 200, or 404.
fn answer<T>(lookup: &Lookup<T>, expected_url: &str, record: Option<T>) -> DTResult<T> {
    assert_eq!(lookup.url(), expected_url);
    match record {
        Some(r) => retrieve(200, Some(Ok(r))),
        None => retrieve(404, None),
    }
}

/// Serves `records` in pages of `limit`, checking that the first request is
/// for `first_url` and each later one follows the previous page's cursor,
/// and returns what the sequence yields.
fn serve<T>(mut list: PaginatedList<T>, first_url: &str, mut records: Vec<T>, limit: usize) -> DTResult<Vec<T>> {
    let path = first_url.strip_prefix(API_ORIGIN).unwrap().to_string();
    let separator = if path.contains('?') { "&" } else { "?" };
    let total = records.len();
    let mut expected = first_url.to_string();
    let mut offset = 0;
    let mut out = Vec::new();
    loop {
        match list.next_step() {
            Step::Item(x) => out.push(x),
            Step::Failed(e) => return Err(e),
            Step::End => return Ok(out),
            Step::Fetch(url) => {
                assert_eq!(url, expected);
                let take = limit.min(records.len());
                let rest = records.split_off(take);
                let objects = std::mem::replace(&mut records, rest);
                let next = if records.is_empty() {
                    None
                } else {
                    Some(format!("{}{}limit={}&offset={}", path, separator, limit, offset + take))
                };
                if let Some(n) = &next {
                    expected = format!("{}{}", API_ORIGIN, n);
                }
                let meta = Meta { total_count: total as u32, limit: limit as u32, offset: offset as u32, previous: None, next };
                offset += take;
                list.receive_page(Ok(Page { meta, objects }));
            }
        }
    }
}

fn time(y: i32, mo: u32, d: u32, h: u32, mi: u32, s: u32) -> Timestamp {
    Timestamp::from_ymd_hms(y, mo, d, h, mi, s).unwrap()
}

fn person_uri(path: &str) -> PersonUri {
    PersonUri::new(path.to_string()).unwrap()
}

fn csp_email() -> Email {
    Email {
        resource_uri: EmailUri::new("/api/v1/person/email/csp@csperkins.org/".to_string()).unwrap(),
        address: "csp@csperkins.org".to_string(),
        person: person_uri("/api/v1/person/person/20209/"),
        time: time(1970, 1, 1, 23, 59, 59),
        origin: "author: draft-ietf-avt-rtp-new".to_string(),
        primary: true,
        active: true,
    }
}

fn someone(id: u64, name: &str) -> Person {
    Person {
        id,
        resource_uri: person_uri(&format!("/api/v1/person/person/{}/", id)),
        name: name.to_string(),
        name_from_draft: Some(name.to_string()),
        biography: String::new(),
        ascii: name.to_string(),
        ascii_short: Some(String::new()),
        time: time(2012, 2, 26, 0, 3, 54),
        photo: None,
        photo_thumb: None,
        user: Some(String::new()),
        consent: None,
    }
}

fn csp() -> Person {
    Person {
        photo: Some("https://www.ietf.org/lib/dt/media/photo/csp-square.jpg".to_string()),
        photo_thumb: Some("https://www.ietf.org/lib/dt/media/photo/csp-square_GDMMZmn.jpg".to_string()),
        ..someone(20209, "Colin Perkins")
    }
}

fn historical_email(id: u64) -> HistoricalEmail {
    HistoricalEmail {
        resource_uri: HistoricalEmailUri::new(format!("/api/v1/person/historicalemail/{}/", id)).unwrap(),
        address: "csp@isi.edu".to_string(),
        person: person_uri("/api/v1/person/person/20209/"),
        time: time(1970, 1, 1, 23, 59, 59),
        origin: String::new(),
        primary: false,
        active: false,
        history_change_reason: None,
        history_user: None,
        history_id: id,
        history_type: "~".to_string(),
        history_date: time(2019, 1, 1, 0, 0, 0),
    }
}

fn historical_person(id: u64) -> HistoricalPerson {
    HistoricalPerson {
        id: 20209,
        resource_uri: HistoricalPersonUri::new(format!("/api/v1/person/historicalperson/{}/", id)).unwrap(),
        name: "Colin Perkins".to_string(),
        name_from_draft: "Colin Perkins".to_string(),
        biography: String::new(),
        ascii: "Colin Perkins".to_string(),
        ascii_short: None,
        time: time(2012, 2, 26, 0, 3, 54),
        photo: None,
        photo_thumb: None,
        user: String::new(),
        consent: None,
        history_change_reason: None,
        history_user: String::new(),
        history_type: "~".to_string(),
        history_id: id,
        history_date: time(2019, 1, 1, 0, 0, 0),
    }
}

fn alias(id: u64, name: &str) -> PersonAlias {
    PersonAlias {
        id,
        resource_uri: PersonAliasUri::new(format!("/api/v1/person/alias/{}/", id)).unwrap(),
        person: person_uri("/api/v1/person/person/20209/"),
        name: name.to_string(),
    }
}

fn doc_state(id: u64, name: &str, slug: &str, state_type: &str) -> DocState {
    DocState {
        id,
        resource_uri: DocStateUri::new(format!("/api/v1/doc/state/{}/", id)).unwrap(),
        name: name.to_string(),
        desc: String::new(),
        slug: slug.to_string(),
        next_states: vec![],
        used: true,
        order: 1,
        state_type: DocStateTypeUri::new(format!("/api/v1/doc/statetype/{}/", state_type)).unwrap(),
    }
}

fn doc_state_type(slug: &str, label: &str) -> DocStateType {
    DocStateType {
        resource_uri: DocStateTypeUri::new(format!("/api/v1/doc/statetype/{}/", slug)).unwrap(),
        slug: slug.to_string(),
        label: label.to_string(),
    }
}

#[test]
fn test_email() -> DTResult<()> {
    let dt = Datatracker::new();

    let uri = EmailUri::new("/api/v1/person/email/csp@csperkins.org/".to_string()).unwrap();
    let e = answer(
        &dt.email(&uri),
        "https://datatracker.ietf.org/api/v1/person/email/csp@csperkins.org/",
        Some(csp_email()),
    )?;
    assert_eq!(e.resource_uri, EmailUri::new("/api/v1/person/email/csp@csperkins.org/".to_string()).unwrap());
    assert_eq!(e.address, "csp@csperkins.org");
    assert_eq!(e.person, PersonUri::new("/api/v1/person/person/20209/".to_string()).unwrap());
    assert_eq!(e.time, Timestamp::from_ymd_hms(1970, 1, 1, 23, 59, 59).unwrap());
    assert_eq!(e.primary, true);
    assert_eq!(e.active, true);

    Ok(())
}

#[test]
fn test_email_from_address() -> DTResult<()> {
    let dt = Datatracker::new();

    // Lookup an address that exists:
    let e = answer(
        &dt.email_from_address("csp@csperkins.org"),
        "https://datatracker.ietf.org/api/v1/person/email/csp@csperkins.org/",
        Some(csp_email()),
    )?;
    assert_eq!(e.resource_uri, EmailUri::new("/api/v1/person/email/csp@csperkins.org/".to_string()).unwrap());
    assert_eq!(e.address, "csp@csperkins.org");
    assert_eq!(e.person, PersonUri::new("/api/v1/person/person/20209/".to_string()).unwrap());
    assert_eq!(e.time, Timestamp::from_ymd_hms(1970, 1, 1, 23, 59, 59).unwrap());
    assert_eq!(e.primary, true);
    assert_eq!(e.active, true);

    // Lookup a non-existing address; this should fail
    assert!(answer(
        &dt.email_from_address("nobody@example.com"),
        "https://datatracker.ietf.org/api/v1/person/email/nobody@example.com/",
        None,
    )
    .is_err());

    Ok(())
}

#[test]
fn test_email_history_for_address() -> DTResult<()> {
    let dt = Datatracker::new();

    let records = [167444, 161025, 128355, 128350, 71987, 2090].iter().map(|&i| historical_email(i)).collect();
    let h = serve(
        dt.email_history_for_address("csp@isi.edu"),
        "https://datatracker.ietf.org/api/v1/person/historicalemail/?address=csp@isi.edu",
        records,
        4,
    )?;
    assert_eq!(h.len(), 6);
    assert_eq!(h[0].resource_uri, HistoricalEmailUri::new("/api/v1/person/historicalemail/167444/".to_string()).unwrap());
    assert_eq!(h[1].resource_uri, HistoricalEmailUri::new("/api/v1/person/historicalemail/161025/".to_string()).unwrap());
    assert_eq!(h[2].resource_uri, HistoricalEmailUri::new("/api/v1/person/historicalemail/128355/".to_string()).unwrap());
    assert_eq!(h[3].resource_uri, HistoricalEmailUri::new("/api/v1/person/historicalemail/128350/".to_string()).unwrap());
    assert_eq!(h[4].resource_uri, HistoricalEmailUri::new("/api/v1/person/historicalemail/71987/".to_string()).unwrap());
    assert_eq!(h[5].resource_uri, HistoricalEmailUri::new("/api/v1/person/historicalemail/2090/".to_string()).unwrap());

    Ok(())
}

#[test]
fn test_person() -> DTResult<()> {
    let dt = Datatracker::new();

    let p = answer(
        &dt.person(&PersonUri::new("/api/v1/person/person/20209/".to_string()).unwrap()),
        "https://datatracker.ietf.org/api/v1/person/person/20209/",
        Some(csp()),
    )?;
    assert_eq!(p.id, 20209);
    assert_eq!(p.resource_uri, PersonUri::new("/api/v1/person/person/20209/".to_string()).unwrap());
    assert_eq!(p.name, "Colin Perkins");
    assert_eq!(p.name_from_draft, Some("Colin Perkins".to_string()));
    assert_eq!(p.ascii, "Colin Perkins");
    assert_eq!(p.ascii_short, Some("".to_string()));
    assert_eq!(p.time, Timestamp::from_ymd_hms(2012, 2, 26, 0, 3, 54).unwrap());
    assert_eq!(p.photo, Some("https://www.ietf.org/lib/dt/media/photo/csp-square.jpg".to_string()));
    assert_eq!(p.photo_thumb, Some("https://www.ietf.org/lib/dt/media/photo/csp-square_GDMMZmn.jpg".to_string()));
    assert_eq!(p.user, Some("".to_string()));
    Ok(())
}

#[test]
fn test_person_from_email() -> DTResult<()> {
    let dt = Datatracker::new();

    let plan = dt.person_from_email(&EmailUri::new("/api/v1/person/email/csp@csperkins.org/".to_string()).unwrap());
    let e = answer(
        plan.email_lookup(),
        "https://datatracker.ietf.org/api/v1/person/email/csp@csperkins.org/",
        Some(csp_email()),
    );
    let p = answer(&plan.person_lookup(e)?, "https://datatracker.ietf.org/api/v1/person/person/20209/", Some(csp()))?;
    assert_eq!(p.id, 20209);
    assert_eq!(p.name, "Colin Perkins");

    Ok(())
}

#[test]
fn test_person_from_email_address() -> DTResult<()> {
    let dt = Datatracker::new();

    let plan = dt.person_from_email_address("csp@csperkins.org");
    let e = answer(
        plan.email_lookup(),
        "https://datatracker.ietf.org/api/v1/person/email/csp@csperkins.org/",
        Some(csp_email()),
    );
    let p = answer(&plan.person_lookup(e)?, "https://datatracker.ietf.org/api/v1/person/person/20209/", Some(csp()))?;
    assert_eq!(p.id, 20209);
    assert_eq!(p.name, "Colin Perkins");

    Ok(())
}

#[test]
fn test_people_with_name() -> DTResult<()> {
    let dt = Datatracker::new();

    let people = serve(
        dt.people_with_name("Colin Perkins"),
        "https://datatracker.ietf.org/api/v1/person/person/?name=Colin Perkins",
        vec![csp()],
        20,
    )?;
    assert_eq!(people[0].id, 20209);
    assert_eq!(people[0].name, "Colin Perkins");

    Ok(())
}

#[test]
fn test_people_with_name_containing() -> DTResult<()> {
    let dt = Datatracker::new();

    let records = (0..8).map(|i| someone(100 + i, &format!("Person {} Perkins", i))).collect();
    let people = serve(
        dt.people_with_name_containing("Perkins"),
        "https://datatracker.ietf.org/api/v1/person/person/?name__contains=Perkins",
        records,
        3,
    )?;
    assert_eq!(people.len(), 8);

    Ok(())
}

#[test]
fn test_people_between() -> DTResult<()> {
    let dt = Datatracker::new();

    let start = Timestamp::from_ymd_hms(2019, 7, 1, 0, 0, 0).unwrap();
    let until = Timestamp::from_ymd_hms(2019, 7, 7, 23, 59, 59).unwrap();
    let records = (0..25).map(|i| someone(130000 + i, "Somebody")).collect();
    let people = serve(
        dt.people_between(start, until),
        "https://datatracker.ietf.org/api/v1/person/person/?time__gte=2019-07-01T00:00:00&time__lt=2019-07-07T23:59:59",
        records,
        20,
    )?;

    assert_eq!(people.len(), 25);

    Ok(())
}

#[test]
fn test_person_history() -> DTResult<()> {
    let dt = Datatracker::new();

    let plan = dt.person_from_email_address("csp@csperkins.org");
    let e = answer(
        plan.email_lookup(),
        "https://datatracker.ietf.org/api/v1/person/email/csp@csperkins.org/",
        Some(csp_email()),
    );
    let p = answer(&plan.person_lookup(e)?, "https://datatracker.ietf.org/api/v1/person/person/20209/", Some(csp()))?;
    let records = [27668, 24980, 24978, 17735, 17734, 11731, 10878, 127].iter().map(|&i| historical_person(i)).collect();
    let h = serve(
        dt.person_history(&p),
        "https://datatracker.ietf.org/api/v1/person/historicalperson/?id=20209",
        records,
        5,
    )?;
    assert_eq!(h.len(), 8);
    assert_eq!(h[0].resource_uri, HistoricalPersonUri::new("/api/v1/person/historicalperson/27668/".to_string()).unwrap());
    assert_eq!(h[1].resource_uri, HistoricalPersonUri::new("/api/v1/person/historicalperson/24980/".to_string()).unwrap());
    assert_eq!(h[2].resource_uri, HistoricalPersonUri::new("/api/v1/person/historicalperson/24978/".to_string()).unwrap());
    assert_eq!(h[3].resource_uri, HistoricalPersonUri::new("/api/v1/person/historicalperson/17735/".to_string()).unwrap());
    assert_eq!(h[4].resource_uri, HistoricalPersonUri::new("/api/v1/person/historicalperson/17734/".to_string()).unwrap());
    assert_eq!(h[5].resource_uri, HistoricalPersonUri::new("/api/v1/person/historicalperson/11731/".to_string()).unwrap());
    assert_eq!(h[6].resource_uri, HistoricalPersonUri::new("/api/v1/person/historicalperson/10878/".to_string()).unwrap());
    assert_eq!(h[7].resource_uri, HistoricalPersonUri::new("/api/v1/person/historicalperson/127/".to_string()).unwrap());

    Ok(())
}

#[test]
fn test_person_aliases() -> DTResult<()> {
    let dt = Datatracker::new();

    let plan = dt.person_from_email_address("csp@csperkins.org");
    let e = answer(
        plan.email_lookup(),
        "https://datatracker.ietf.org/api/v1/person/email/csp@csperkins.org/",
        Some(csp_email()),
    );
    let p = answer(&plan.person_lookup(e)?, "https://datatracker.ietf.org/api/v1/person/person/20209/", Some(csp()))?;
    let h = serve(
        dt.person_aliases(&p),
        "https://datatracker.ietf.org/api/v1/person/alias/?person=20209",
        vec![alias(62, "Dr. Colin Perkins"), alias(63, "Colin Perkins")],
        1,
    )?;
    assert_eq!(h.len(), 2);
    assert_eq!(h[0].name, "Dr. Colin Perkins");
    assert_eq!(h[1].name, "Colin Perkins");

    Ok(())
}

#[test]
fn test_doc_state() -> DTResult<()> {
    let dt = Datatracker::new();

    let uri = DocStateUri::new("/api/v1/doc/state/81/".to_string()).unwrap();
    let st = answer(
        &dt.doc_state(&uri),
        "https://datatracker.ietf.org/api/v1/doc/state/81/",
        Some(doc_state(81, "Active", "active", "agenda")),
    )?;
    assert_eq!(st.id, 81);
    assert_eq!(st.resource_uri, uri);
    assert_eq!(st.name, "Active");
    assert_eq!(st.desc, "");
    assert_eq!(st.slug, "active");
    assert_eq!(st.next_states, vec!());
    assert_eq!(st.used, true);
    assert_eq!(st.order, 1);
    assert_eq!(st.state_type, DocStateTypeUri::new("/api/v1/doc/statetype/agenda/".to_string()).unwrap());

    Ok(())
}

#[test]
fn test_doc_states() -> DTResult<()> {
    let dt = Datatracker::new();

    let records = (1..=171).map(|i| doc_state(i, "State", "state", "draft")).collect();
    let st = serve(dt.doc_states(), "https://datatracker.ietf.org/api/v1/doc/state/", records, 20)?;
    assert_eq!(st.len(), 171);
    Ok(())
}

#[test]
fn test_doc_state_type() -> DTResult<()> {
    let dt = Datatracker::new();

    let uri = DocStateTypeUri::new("/api/v1/doc/statetype/draft/".to_string()).unwrap();
    let st = answer(
        &dt.doc_state_type(&uri),
        "https://datatracker.ietf.org/api/v1/doc/statetype/draft/",
        Some(doc_state_type("draft", "State")),
    )?;
    assert_eq!(st.resource_uri, uri);
    assert_eq!(st.slug, "draft");
    assert_eq!(st.label, "State");

    Ok(())
}

#[test]
fn test_doc_state_types() -> DTResult<()> {
    let dt = Datatracker::new();

    let slugs = [
        "draft", "draft-iesg", "draft-iana", "draft-rfceditor", "draft-stream-ietf", "draft-stream-irtf",
        "draft-stream-ise", "draft-stream-iab", "slides", "minutes", "agenda", "liai-att", "charter",
        "conflrev", "draft-iana-action", "draft-iana-review", "statchg", "recording", "bluesheets",
        "reuse_policy", "review", "liaison", "shepwrit", "draft-iana-experts", "bofreq", "procmaterials",
        "chatlog", "polls", "draft-stream-editorial",
    ];
    let records = slugs.iter().map(|s| doc_state_type(s, "State")).collect();
    let st = serve(dt.doc_state_types(), "https://datatracker.ietf.org/api/v1/doc/statetype/", records, 20)?;
    assert_eq!(st.len(), 29);
    assert_eq!(st[ 0].slug, "draft");
    assert_eq!(st[ 1].slug, "draft-iesg");
    assert_eq!(st[ 2].slug, "draft-iana");
    assert_eq!(st[ 3].slug, "draft-rfceditor");
    assert_eq!(st[ 4].slug, "draft-stream-ietf");
    assert_eq!(st[ 5].slug, "draft-stream-irtf");
    assert_eq!(st[ 6].slug, "draft-stream-ise");
    assert_eq!(st[ 7].slug, "draft-stream-iab");
    assert_eq!(st[ 8].slug, "slides");
    assert_eq!(st[ 9].slug, "minutes");
    assert_eq!(st[10].slug, "agenda");
    assert_eq!(st[11].slug, "liai-att");
    assert_eq!(st[12].slug, "charter");
    assert_eq!(st[13].slug, "conflrev");
    assert_eq!(st[14].slug, "draft-iana-action");
    assert_eq!(st[15].slug, "draft-iana-review");
    assert_eq!(st[16].slug, "statchg");
    assert_eq!(st[17].slug, "recording");
    assert_eq!(st[18].slug, "bluesheets");
    assert_eq!(st[19].slug, "reuse_policy");
    assert_eq!(st[20].slug, "review");
    assert_eq!(st[21].slug, "liaison");
    assert_eq!(st[22].slug, "shepwrit");
    assert_eq!(st[23].slug, "draft-iana-experts");
    assert_eq!(st[24].slug, "bofreq");
    assert_eq!(st[25].slug, "procmaterials");
    assert_eq!(st[26].slug, "chatlog");
    assert_eq!(st[27].slug, "polls");
    assert_eq!(st[28].slug, "draft-stream-editorial");

    Ok(())
}
