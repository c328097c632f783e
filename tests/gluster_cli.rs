use std::convert::TryFrom;

use gluster_volume_plugin::gluster_cli::{
    create_args, info_args, CreateCliOutput, Info, InfoCliOutput, VolInfo, Volume, VolumeId,
    Volumes,
};
use gluster_volume_plugin::util::Utf8Lossy;

fn volume(name: &str, id: &str) -> Volume {
    Volume { name: name.to_string(), id: VolumeId(id.to_string()) }
}

#[test]
fn info_arguments() {
    assert_eq!(info_args(), vec!["--mode=script", "--xml", "volume", "info"]);
}

#[test]
fn create_arguments() {
    assert_eq!(
        create_args("gv0", 3, &[("h1", "/b1"), ("h2", "/b2")], true),
        vec!["--mode=script", "--xml", "volume", "create", "gv0", "replica", "3", "h1:/b1", "h2:/b2", "force"]
    );
    assert_eq!(
        create_args("gv1", 12, &[], false),
        vec!["--mode=script", "--xml", "volume", "create", "gv1", "replica", "12"]
    );
}

#[test]
fn info_output_success_and_failure() {
    let ok = InfoCliOutput {
        op_ret: 0,
        op_errno: 0,
        op_errstr: String::new(),
        vol_info: VolInfo { volumes: Volumes { volume: vec![volume("gv0", "u1")] } },
    };
    let info = Info::try_from(ok).unwrap();
    assert_eq!(info.volumes.len(), 1);
    assert_eq!(info.volumes[0].id, VolumeId("u1".to_string()));

    let bad = InfoCliOutput {
        op_ret: -1,
        op_errno: 0,
        op_errstr: "no such volume".to_string(),
        vol_info: VolInfo { volumes: Volumes { volume: vec![] } },
    };
    assert_eq!(Info::try_from(bad).unwrap_err(), "no such volume");
}

#[test]
fn create_output_success_and_failure() {
    let ok = CreateCliOutput { op_ret: 0, op_errno: 0, op_errstr: String::new(), volume: volume("gv0", "u1") };
    assert_eq!(Volume::try_from(ok).unwrap().name, "gv0");
    let bad = CreateCliOutput { op_ret: 0, op_errno: 2, op_errstr: "exists".to_string(), volume: volume("gv0", "u1") };
    assert_eq!(Volume::try_from(bad).unwrap_err(), "exists");
}

#[test]
fn lossy_bytes_kept() {
    let raw: &[u8] = b"ab\xffc";
    let l = Utf8Lossy::from(raw);
    assert_eq!(l.bytes(), raw);
    assert_eq!(l.0, raw);
}

#[test]
fn lossy_text_marks_invalid_sequences() {
    assert_eq!(Utf8Lossy::from(&b""[..]).to_string(), "");
    assert_eq!(Utf8Lossy::from("héllo".as_bytes()).to_string(), "héllo");
    assert_eq!(Utf8Lossy::from(&b"ab\xffc"[..]).to_string(), "ab\u{FFDD}c");
    assert_eq!(Utf8Lossy::from(&b"\xf0\x28\x8c\x28"[..]).to_string(), "\u{FFDD}(\u{FFDD}(");
    assert_eq!(Utf8Lossy::from(&b"ab\xe2\x82"[..]).to_string(), "ab\u{FFDD}");
    assert_eq!(Utf8Lossy::from(&b"\xff\xfe"[..]).to_string(), "\u{FFDD}\u{FFDD}");
}
