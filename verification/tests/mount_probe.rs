use mayastor_core::findmnt::{
    convert_findmnt_devicepath, device_path_from_capture, findmnt, findmnt_get_devicepath,
    findmnt_get_mountpaths, CommandOutput, FindmntFilter,
};
use mayastor_core::json::{parse_json, JsonValue};

fn ran(stdout: &str) -> CommandOutput {
    CommandOutput { success: true, stdout: stdout.as_bytes().to_vec(), stderr: Vec::new() }
}

const TREE: &str = r#"{
  "filesystems": [
    {"source": "sysfs", "target": "/sys", "fstype": "sysfs"},
    {"source": "udev", "target": "/dev", "fstype": "devtmpfs",
     "children": [
       {"source": "devpts", "target": "/dev/pts", "fstype": "devpts"},
       {"source": "udev[/nvme0n1]", "target": "/var/lib/kubelet/vol1", "fstype": "devtmpfs"}
     ]},
    {"source": "/dev/sda1", "target": "/", "fstype": "ext4",
     "children": [
       {"source": "/dev/sda1", "target": "/mnt/data", "fstype": "ext4"},
       {"source": "/dev/sdb", "target": "/mnt/x", "fstype": "xfs"}
     ]}
  ]
}"#;

#[test]
fn normalizes_bracketed_sources() {
    assert_eq!(convert_findmnt_devicepath("udev[/nvme0n1]"), "/dev/nvme0n1");
    assert_eq!(convert_findmnt_devicepath("dev[/nvme0n1]"), "/dev/nvme0n1");
    assert_eq!(convert_findmnt_devicepath("tmpfs[/nvme0n1]"), "/dev/nvme0n1");
    assert_eq!(convert_findmnt_devicepath("devtmpfs[/nvme0n1]"), "/dev/nvme0n1");
}

#[test]
fn leaves_plain_sources_alone() {
    assert_eq!(convert_findmnt_devicepath("/dev/sda1"), "/dev/sda1");
    assert_eq!(convert_findmnt_devicepath("proc"), "proc");
    assert_eq!(convert_findmnt_devicepath(""), "");
    assert_eq!(convert_findmnt_devicepath("udev[nvme0n1]"), "udev[nvme0n1]");
}

#[test]
fn device_path_from_capture_follows_the_capture() {
    assert_eq!(device_path_from_capture("udev[/sdc]", Some("/sdc")), "/dev/sdc");
    assert_eq!(device_path_from_capture("udev[/sdc]", None), "udev[/sdc]");
}

#[test]
fn source_filter_accepts_every_bracketed_form() {
    let filter = FindmntFilter { key: "source", value: "/dev/nvme0n1" };
    for raw in ["udev[/nvme0n1]", "dev[/nvme0n1]", "tmpfs[/nvme0n1]", "devtmpfs[/nvme0n1]"] {
        assert!(filter.eq(&JsonValue::String(raw.to_string())));
    }
    assert!(filter.eq(&JsonValue::String("/dev/nvme0n1".to_string())));
    assert!(!filter.eq(&JsonValue::String("udev[/nvme0n2]".to_string())));
    assert!(!filter.eq(&JsonValue::Null));
}

#[test]
fn other_filters_compare_literally() {
    let filter = FindmntFilter { key: "target", value: "/dev/nvme0n1" };
    assert!(filter.eq(&JsonValue::String("/dev/nvme0n1".to_string())));
    assert!(!filter.eq(&JsonValue::String("udev[/nvme0n1]".to_string())));
    assert!(!filter.eq(&JsonValue::Bool(true)));
}

#[test]
fn parses_documents_into_trees() {
    match parse_json(r#"{"b": [1, "x", null, true], "a": {"k": 2.5}}"#) {
        Ok(JsonValue::Object(members)) => {
            assert_eq!(members.len(), 2);
            assert_eq!(members[0].0, "a");
            assert_eq!(members[1].0, "b");
            match &members[1].1 {
                JsonValue::Array(items) => {
                    assert_eq!(items.len(), 4);
                    assert!(matches!(&items[0], JsonValue::Number(n) if n == "1"));
                    assert!(matches!(&items[1], JsonValue::String(s) if s == "x"));
                    assert!(matches!(&items[2], JsonValue::Null));
                    assert!(matches!(&items[3], JsonValue::Bool(true)));
                },
                other => panic!("not an array: {:?}", other),
            }
        },
        other => panic!("not an object: {:?}", other),
    }
    assert!(parse_json("{").is_err());
}

#[test]
fn mount_probe_normalization() {
    let output = ran(r#"{"source":"udev[/nvme0n1]","target":"/mnt/x","fstype":"ext4"}"#);
    let mounts = findmnt_get_mountpaths("/dev/nvme0n1", output).unwrap();
    assert_eq!(mounts.len(), 1);
    assert_eq!(mounts[0].mount_path, "/mnt/x");
    assert_eq!(mounts[0].fstype, "ext4");
}

#[test]
fn finds_records_in_nested_arrays_in_document_order() {
    let mounts = findmnt_get_mountpaths("/dev/sda1", ran(TREE)).unwrap();
    assert_eq!(mounts.len(), 2);
    assert_eq!(mounts[0].mount_path, "/");
    assert_eq!(mounts[1].mount_path, "/mnt/data");
    assert_eq!(mounts[1].fstype, "ext4");
}

#[test]
fn records_carry_the_normalized_source() {
    let filter = FindmntFilter { key: "target", value: "/var/lib/kubelet/vol1" };
    let records = findmnt(filter, ran(TREE)).unwrap();
    assert_eq!(records.len(), 1);
    assert_eq!(records[0].get("source").unwrap(), "/dev/nvme0n1");
    assert_eq!(records[0].get("fstype").unwrap(), "devtmpfs");
    assert_eq!(records[0].len(), 3);
}

#[test]
fn device_for_mount_cardinality() {
    assert_eq!(findmnt_get_devicepath("/nowhere", ran(TREE)).unwrap(), None);
    assert_eq!(
        findmnt_get_devicepath("/var/lib/kubelet/vol1", ran(TREE)).unwrap(),
        Some("/dev/nvme0n1".to_string())
    );
    let twice = r#"[{"source":"/dev/sda","target":"/mnt"},{"source":"/dev/sdb","target":"/mnt"}]"#;
    let err = findmnt_get_devicepath("/mnt", ran(twice)).unwrap_err();
    assert_eq!(err.message, "multiple devices mounted at /mnt");
}

#[test]
fn record_without_source_is_an_error() {
    let err = findmnt_get_devicepath("/mnt", ran(r#"{"target":"/mnt"}"#)).unwrap_err();
    assert_eq!(err.message, "missing source field");
    let err = findmnt_get_devicepath("/mnt", ran(r#"{"target":"/mnt","source":7}"#)).unwrap_err();
    assert_eq!(err.message, "missing source field");
}

#[test]
fn missing_fstype_is_unspecified_and_missing_target_is_dropped() {
    let doc = r#"[{"source":"/dev/sdc","target":"/a"},{"source":"/dev/sdc"},{"source":"/dev/sdc","target":"/b","fstype":"xfs"}]"#;
    let mounts = findmnt_get_mountpaths("/dev/sdc", ran(doc)).unwrap();
    assert_eq!(mounts.len(), 2);
    assert_eq!(mounts[0].mount_path, "/a");
    assert_eq!(mounts[0].fstype, "unspecified");
    assert_eq!(mounts[1].mount_path, "/b");
    assert_eq!(mounts[1].fstype, "xfs");
}

#[test]
fn failed_run_surfaces_standard_error() {
    let output = CommandOutput {
        success: false,
        stdout: b"{}".to_vec(),
        stderr: b"findmnt: bad usage\n".to_vec(),
    };
    let err = findmnt_get_mountpaths("/dev/sda", output).unwrap_err();
    assert_eq!(err.message, "findmnt: bad usage\n");
}

#[test]
fn output_that_is_no_text_or_no_document_is_an_error() {
    let output = CommandOutput { success: true, stdout: vec![0xff, 0xfe], stderr: Vec::new() };
    assert!(findmnt_get_mountpaths("/dev/sda", output).is_err());
    assert!(findmnt_get_mountpaths("/dev/sda", ran("not json")).is_err());
    let output = CommandOutput { success: false, stdout: Vec::new(), stderr: vec![0xc0] };
    assert!(findmnt_get_devicepath("/mnt", output).is_err());
}

#[test]
fn the_last_bracketed_part_of_a_line_counts() {
    assert_eq!(convert_findmnt_devicepath("udev[/a[/b]]"), "/dev/b]");
    assert_eq!(convert_findmnt_devicepath("udev[/a]b]"), "/dev/a]b");
    assert_eq!(convert_findmnt_devicepath("a[/x]\n[/y]z]"), "/dev/x");
    let filter = FindmntFilter { key: "source", value: "/dev/a[/b]" };
    assert!(!filter.eq(&JsonValue::String("udev[/a[/b]]".to_string())));
}

#[test]
fn a_bracketed_part_stays_within_one_line() {
    assert_eq!(convert_findmnt_devicepath("[/]"), "/dev/");
    assert_eq!(convert_findmnt_devicepath("[/\n]"), "[/\n]");
    assert_eq!(convert_findmnt_devicepath("x[/a\n]"), "x[/a\n]");
    assert_eq!(convert_findmnt_devicepath("x[/a]\n"), "/dev/a");
    assert_eq!(convert_findmnt_devicepath("x\n[/a]"), "/dev/a");
    assert_eq!(convert_findmnt_devicepath("x[a/]"), "x[a/]");
    assert_eq!(convert_findmnt_devicepath("x[/a"), "x[/a");
    assert_eq!(convert_findmnt_devicepath("\u{e9}[/\u{fc}]"), "/dev/\u{fc}");
}
