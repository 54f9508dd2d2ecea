use webcam_detect::detector::BoxSize;
use webcam_detect::detector::Color;
use webcam_detect::detector::DetectorClass;

#[test]
fn classes_come_in_scan_order() {
    assert_eq!(
        DetectorClass::all(),
        vec![DetectorClass::Face, DetectorClass::Eye, DetectorClass::Body, DetectorClass::CatFace]
    );
    assert_eq!(DetectorClass::first(), DetectorClass::Face);
    assert_eq!(DetectorClass::Face.successor(), Some(DetectorClass::Eye));
    assert_eq!(DetectorClass::Eye.successor(), Some(DetectorClass::Body));
    assert_eq!(DetectorClass::Body.successor(), Some(DetectorClass::CatFace));
    assert_eq!(DetectorClass::CatFace.successor(), None);
    for (index, class) in DetectorClass::all().into_iter().enumerate() {
        assert_eq!(class.position(), index);
    }
}

#[test]
fn eye_scan_needs_seventy_neighbors_and_five_by_five() {
    let params = DetectorClass::Eye.params();
    assert_eq!(params.min_neighbors, 70);
    assert_eq!(params.min_size, BoxSize { width: 5, height: 5 });
    assert_eq!(params.max_size, BoxSize { width: 0, height: 0 });
}

#[test]
fn body_scan_rejects_small_boxes() {
    let params = DetectorClass::Body.params();
    assert_eq!(params.min_neighbors, 5);
    assert_eq!(params.min_size, BoxSize { width: 50, height: 100 });
    assert_eq!(params.max_size, BoxSize { width: 0, height: 0 });
}

#[test]
fn face_and_cat_scans_are_unbounded() {
    for class in [DetectorClass::Face, DetectorClass::CatFace] {
        let params = class.params();
        assert_eq!(params.min_neighbors, 5);
        assert_eq!(params.min_size, BoxSize { width: 0, height: 0 });
        assert_eq!(params.max_size, BoxSize { width: 0, height: 0 });
    }
}

#[test]
fn every_scan_steps_by_eleven_tenths_with_flag_one() {
    for class in DetectorClass::all() {
        let params = class.params();
        assert_eq!((params.scale_num, params.scale_den), (11, 10));
        assert_eq!(params.scale_num as f64 / params.scale_den as f64, 1.1);
        assert_eq!(params.flags, 1);
    }
}

#[test]
fn outlines_have_class_colors_and_width_two() {
    assert_eq!(DetectorClass::Face.color(), Color { blue: 0, green: 255, red: 0 });
    assert_eq!(DetectorClass::Eye.color(), Color { blue: 255, green: 0, red: 0 });
    assert_eq!(DetectorClass::Body.color(), Color { blue: 0, green: 0, red: 255 });
    assert_eq!(DetectorClass::CatFace.color(), Color { blue: 255, green: 0, red: 0 });
    for class in DetectorClass::all() {
        let outline = class.outline();
        assert_eq!(outline.color, class.color());
        assert_eq!((outline.thickness, outline.line_type, outline.shift), (2, 8, 0));
    }
}

#[test]
fn labels_notices_and_definition_names() {
    assert_eq!(DetectorClass::Face.label(), "face");
    assert_eq!(DetectorClass::Eye.label(), "eye");
    assert_eq!(DetectorClass::Body.label(), "body");
    assert_eq!(DetectorClass::CatFace.label(), "cat");
    assert_eq!(DetectorClass::Face.notice(), "Face detected!");
    assert_eq!(DetectorClass::Eye.notice(), "Eye detected!");
    assert_eq!(DetectorClass::Body.notice(), "Body detected!");
    assert_eq!(DetectorClass::CatFace.notice(), "Cat detected!");
    assert_eq!(DetectorClass::Face.definition_name(), "haarcascade_frontalface_alt.xml");
    assert_eq!(DetectorClass::Eye.definition_name(), "haarcascade_eye.xml");
    assert_eq!(DetectorClass::Body.definition_name(), "haarcascade_fullbody.xml");
    assert_eq!(
        DetectorClass::CatFace.definition_name(),
        "haarcascade_frontalcatface_extended.xml"
    );
}
