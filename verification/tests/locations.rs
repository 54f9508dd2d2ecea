use webcam_detect::bridge::locate_staging;
use webcam_detect::bridge::on_detected;
use webcam_detect::bridge::plan_snapshot;
use webcam_detect::bridge::plan_staging;
use webcam_detect::bridge::require_written;
use webcam_detect::bridge::snapshot_for;
use webcam_detect::bridge::staging_for;
use webcam_detect::detector::DetectorClass;
use webcam_detect::error::CustomError;
use webcam_detect::moment::Moment;
use webcam_detect::paths::artifact_directory;
use webcam_detect::paths::artifact_path;
use webcam_detect::paths::cache_directory;
use webcam_detect::paths::staged_path;

#[test]
fn cache_directory_lies_on_the_desktop() {
    assert_eq!(cache_directory("/home/alice"), "/home/alice/Desktop/camera");
    assert_eq!(cache_directory(""), "/Desktop/camera");
}

#[test]
fn artifact_directory_lies_on_the_desktop() {
    assert_eq!(artifact_directory("/home/alice"), "/home/alice/Desktop/detections");
}

#[test]
fn staged_path_is_directory_slash_name() {
    assert_eq!(
        staged_path("/home/alice/Desktop/camera", "haarcascade_eye.xml"),
        "/home/alice/Desktop/camera/haarcascade_eye.xml"
    );
}

#[test]
fn artifact_path_holds_label_and_stamp() {
    assert_eq!(
        artifact_path("/d", "body", "20231231_235959"),
        "/d/body_20231231_235959.jpg"
    );
}

#[test]
fn same_second_snapshots_differ_by_class() {
    let stamp = "20240101_000000";
    let mut paths = Vec::new();
    for class in DetectorClass::all() {
        paths.push(plan_snapshot(class, "/home/alice", stamp).path);
    }
    for i in 0..paths.len() {
        for j in 0..paths.len() {
            if i != j {
                assert_ne!(paths[i], paths[j]);
            }
        }
    }
    assert_eq!(paths[0], "/home/alice/Desktop/detections/face_20240101_000000.jpg");
    assert_eq!(paths[3], "/home/alice/Desktop/detections/cat_20240101_000000.jpg");
}

#[test]
fn snapshot_plan_names_notice_directory_and_path() {
    let snapshot = plan_snapshot(DetectorClass::Eye, "/root", "19991231_010203");
    assert_eq!(snapshot.notice, "Eye detected!");
    assert_eq!(snapshot.directory, "/root/Desktop/detections");
    assert_eq!(snapshot.path, "/root/Desktop/detections/eye_19991231_010203.jpg");
}

#[test]
fn staging_plan_names_prefix_directory_and_destination() {
    let staging = plan_staging("/home/bob", "haarcascade_fullbody.xml");
    assert_eq!(staging.temp_prefix, "haarcascade_fullbody.xml");
    assert_eq!(staging.directory, "/home/bob/Desktop/camera");
    assert_eq!(staging.destination, "/home/bob/Desktop/camera/haarcascade_fullbody.xml");
}

#[test]
fn staging_destinations_differ_by_class() {
    let mut seen = Vec::new();
    for class in DetectorClass::all() {
        let destination = plan_staging("/h", class.definition_name()).destination;
        assert!(!seen.contains(&destination));
        seen.push(destination);
    }
    assert_eq!(seen.len(), 4);
}

#[test]
fn detection_is_stamped_with_its_local_second() {
    let moment = Moment { seconds: 1709622489, offset: 3600 };
    if let Some(snapshot) = on_detected(DetectorClass::CatFace, moment) {
        assert_eq!(snapshot.notice, "Cat detected!");
        assert!(snapshot.directory.ends_with("/Desktop/detections"));
        assert_eq!(snapshot.path, format!("{}/cat_20240305_080809.jpg", snapshot.directory));
    }
}

#[test]
fn detection_at_a_moment_without_stamp_gives_no_snapshot() {
    let moment = Moment { seconds: 0, offset: 86400 };
    assert_eq!(on_detected(DetectorClass::Face, moment), None);
}

#[test]
fn stamp_holds_local_date_and_time_in_digits() {
    assert_eq!(Moment { seconds: 0, offset: 0 }.stamp(), Some(String::from("19700101_000000")));
    assert_eq!(
        Moment { seconds: 1709622489, offset: 0 }.stamp(),
        Some(String::from("20240305_070809"))
    );
    assert_eq!(
        Moment { seconds: 1709622489, offset: 3600 }.stamp(),
        Some(String::from("20240305_080809"))
    );
    assert_eq!(
        Moment { seconds: 1709622489, offset: -18000 }.stamp(),
        Some(String::from("20240305_020809"))
    );
    assert_eq!(
        Moment { seconds: 951782400, offset: 0 }.stamp(),
        Some(String::from("20000229_000000"))
    );
    assert_eq!(Moment { seconds: -1, offset: 0 }.stamp(), Some(String::from("19691231_235959")));
    assert_eq!(
        Moment { seconds: 253402300799, offset: 0 }.stamp(),
        Some(String::from("99991231_235959"))
    );
}

#[test]
fn moment_out_of_range_has_no_stamp() {
    assert_eq!(Moment { seconds: 0, offset: 86400 }.stamp(), None);
    assert_eq!(Moment { seconds: 0, offset: -86400 }.stamp(), None);
    assert_eq!(Moment { seconds: i64::MAX, offset: 0 }.stamp(), None);
    assert_eq!(Moment { seconds: i64::MIN, offset: 0 }.stamp(), None);
}

#[test]
fn unwritten_snapshot_is_an_engine_failure() {
    assert_eq!(require_written("/d/face_x.jpg", true), Ok(()));
    assert_eq!(
        require_written("/d/face_x.jpg", false),
        Err(CustomError::OpenCvError(String::from("snapshot was not written: /d/face_x.jpg")))
    );
}

#[test]
fn staging_for_the_current_user_follows_the_plan() {
    if let Some(staging) = locate_staging("haarcascade_eye.xml") {
        assert_eq!(staging.temp_prefix, "haarcascade_eye.xml");
        assert!(staging.directory.ends_with("/Desktop/camera"));
        assert_eq!(staging.destination, format!("{}/haarcascade_eye.xml", staging.directory));
        let home = &staging.directory[..staging.directory.len() - "/Desktop/camera".len()];
        assert_eq!(staging, plan_staging(home, "haarcascade_eye.xml"));
    }
}

#[test]
fn no_home_directory_gives_no_snapshot_and_no_staging() {
    let stamp = String::from("20240101_000000");
    assert_eq!(snapshot_for(DetectorClass::Face, None, Some(stamp)), None);
    assert_eq!(snapshot_for(DetectorClass::Face, None, None), None);
    assert_eq!(staging_for(None, "haarcascade_eye.xml"), None);
}

#[test]
fn no_stamp_gives_no_snapshot() {
    assert_eq!(snapshot_for(DetectorClass::Face, Some(String::from("/home/alice")), None), None);
}

#[test]
fn named_home_directory_gives_the_planned_snapshot_and_staging() {
    let home = String::from("/home/alice");
    let stamp = String::from("20240101_000000");
    assert_eq!(
        snapshot_for(DetectorClass::Body, Some(home.clone()), Some(stamp)),
        Some(plan_snapshot(DetectorClass::Body, "/home/alice", "20240101_000000"))
    );
    assert_eq!(
        staging_for(Some(home), "haarcascade_eye.xml"),
        Some(plan_staging("/home/alice", "haarcascade_eye.xml"))
    );
    let snapshot =
        snapshot_for(DetectorClass::Body, Some(String::from("/h")), Some(String::from("s")))
            .unwrap();
    assert_eq!(snapshot.path, "/h/Desktop/detections/body_s.jpg");
}
