use surface_lifecycle::version::{
    make_version, API_VERSION, APPLICATION_NAME, APPLICATION_VERSION, ENGINE_NAME, ENGINE_VERSION,
    WINDOW_HEIGHT, WINDOW_WIDTH,
};

#[test]
fn make_version_packs_the_fields() {
    assert_eq!(make_version(0, 1, 0), 1 << 12);
    assert_eq!(make_version(1, 0, 0), 1 << 22);
    assert_eq!(make_version(1, 2, 3), (1 << 22) | (2 << 12) | 3);
    assert_eq!(make_version(0, 0, 0), 0);
}

#[test]
fn make_version_fields_can_be_recovered() {
    let v = make_version(5, 17, 1023);
    assert_eq!(v >> 22, 5);
    assert_eq!((v >> 12) & 0x3ff, 17);
    assert_eq!(v & 0xfff, 1023);
}

#[test]
fn metadata_constants() {
    assert_eq!(APPLICATION_VERSION, make_version(0, 1, 0));
    assert_eq!(ENGINE_VERSION, make_version(0, 1, 0));
    assert_eq!(API_VERSION, make_version(1, 0, 0));
    assert_eq!(WINDOW_WIDTH, 1280);
    assert_eq!(WINDOW_HEIGHT, 720);
    assert_eq!(APPLICATION_NAME, "NeoClausewitz.Test");
    assert_eq!(ENGINE_NAME, "NeoClausewitz");
}
