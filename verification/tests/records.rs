use zeroconf::{Error, Field, ServiceDiscovery, ServiceDiscoveryBuilder, TxtRecord};

fn complete() -> ServiceDiscoveryBuilder {
    ServiceDiscovery::builder()
        .name("printer".to_string())
        .kind("_http._tcp".to_string())
        .domain("local".to_string())
        .host_name("printer.local".to_string())
        .address("10.0.0.5".to_string())
        .port(631)
}

#[test]
fn builder_gives_the_record_with_its_fields() {
    let d = complete().build().unwrap();
    assert_eq!(d.name(), "printer");
    assert_eq!(d.kind(), "_http._tcp");
    assert_eq!(d.domain(), "local");
    assert_eq!(d.host_name(), "printer.local");
    assert_eq!(d.address(), "10.0.0.5");
    assert_eq!(*d.port(), 631);
    assert_eq!(*d.txt(), None);
}

#[test]
fn builder_takes_txt_data() {
    let txt = TxtRecord::clone_raw(&[1, b'a']);
    let d = complete().txt(Some(txt.clone())).build().unwrap();
    assert_eq!(*d.txt(), Some(txt));
    let d = complete().txt(Some(TxtRecord::clone_raw(&[1, b'a']))).txt(None).build().unwrap();
    assert_eq!(*d.txt(), None);
}

#[test]
fn builder_keeps_the_last_value_of_a_field() {
    let d = complete().name("scanner".to_string()).port(80).build().unwrap();
    assert_eq!(d.name(), "scanner");
    assert_eq!(*d.port(), 80);
    assert_eq!(d.kind(), "_http._tcp");
}

#[test]
fn builder_without_a_required_field_fails_with_the_first_missing_one() {
    let s = |v: &str| v.to_string();
    let b = ServiceDiscovery::builder();
    assert_eq!(b.clone().build(), Err(Error::Build(Field::Name)));
    let b = b.name(s("n"));
    assert_eq!(b.clone().build(), Err(Error::Build(Field::Kind)));
    let b = b.kind(s("k"));
    assert_eq!(b.clone().build(), Err(Error::Build(Field::Domain)));
    let b = b.domain(s("d"));
    assert_eq!(b.clone().build(), Err(Error::Build(Field::HostName)));
    let b = b.host_name(s("h"));
    assert_eq!(b.clone().build(), Err(Error::Build(Field::Address)));
    let b = b.address(s("a"));
    assert_eq!(b.clone().build(), Err(Error::Build(Field::Port)));
    let b = b.port(1);
    assert!(b.build().is_ok());
}

#[test]
fn builder_reports_the_first_missing_field_whatever_else_is_set() {
    let b = ServiceDiscovery::builder().port(1).address("a".to_string()).kind("k".to_string());
    assert_eq!(b.build(), Err(Error::Build(Field::Name)));
    let b = ServiceDiscovery::builder().name("n".to_string()).port(1).txt(None);
    assert_eq!(b.build(), Err(Error::Build(Field::Kind)));
}

#[test]
fn txt_payload_of_at_most_one_byte_is_no_record() {
    assert_eq!(TxtRecord::from_payload(&[]), None);
    assert_eq!(TxtRecord::from_payload(&[0]), None);
    assert_eq!(TxtRecord::from_payload(&[200]), None);
}

#[test]
fn txt_payload_of_two_bytes_or_more_is_copied() {
    let t = TxtRecord::from_payload(&[1, b'a']).unwrap();
    assert_eq!(t.as_bytes(), &[1, b'a']);
    assert_eq!(t.len(), 2);
    let payload: Vec<u8> = (0..=255u8).collect();
    let t = TxtRecord::from_payload(&payload).unwrap();
    assert_eq!(t.as_bytes(), &payload[..]);
    assert_eq!(t.len(), 256);
}

#[test]
fn clone_raw_copies_every_payload() {
    assert_eq!(TxtRecord::clone_raw(&[]).len(), 0);
    assert_eq!(TxtRecord::clone_raw(&[0]).as_bytes(), &[0]);
    assert_eq!(TxtRecord::clone_raw(&[3, b'a', b'=', b'b']).as_bytes(), &[3, b'a', b'=', b'b']);
}
