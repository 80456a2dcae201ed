use hwcodec::ffmpeg::{AVHWDeviceType, CodecInfo, CodecInfos, DataFormat, Vendor};

fn entry(name: &str, format: DataFormat, score: i32) -> CodecInfo {
    CodecInfo {
        name: String::from(name),
        format,
        vendor: Vendor::OTHER,
        score,
        hwdevice: AVHWDeviceType::AV_HWDEVICE_TYPE_NONE,
    }
}

#[test]
fn score_tie_keeps_first_entry() {
    let best = CodecInfo::score(vec![
        entry("a", DataFormat::H264, 10),
        entry("b", DataFormat::H264, 10),
        entry("c", DataFormat::H265, 5),
    ]);
    assert_eq!(best.h264, Some(entry("a", DataFormat::H264, 10)));
    assert_eq!(best.h265, Some(entry("c", DataFormat::H265, 5)));
}

#[test]
fn score_of_nothing_is_empty() {
    let best = CodecInfo::score(vec![]);
    assert_eq!(best, CodecInfos { h264: None, h265: None });
}

#[test]
fn score_takes_strictly_greater_later_entry() {
    let best = CodecInfo::score(vec![
        entry("low", DataFormat::H264, 1),
        entry("high", DataFormat::H264, 2),
        entry("mid", DataFormat::H264, 2),
        entry("last", DataFormat::H264, -7),
    ]);
    assert_eq!(best.h264, Some(entry("high", DataFormat::H264, 2)));
    assert_eq!(best.h265, None);
}

#[test]
fn score_selects_maximum_per_family() {
    let coders = vec![
        entry("x0", DataFormat::H265, 3),
        entry("y0", DataFormat::H264, -5),
        entry("x1", DataFormat::H265, 9),
        entry("y1", DataFormat::H264, i32::MAX),
        entry("x2", DataFormat::H265, 9),
        entry("y2", DataFormat::H264, i32::MIN),
    ];
    let best = CodecInfo::score(coders.clone());
    for format in [DataFormat::H264, DataFormat::H265] {
        let winner = match format {
            DataFormat::H264 => best.h264.clone().unwrap(),
            DataFormat::H265 => best.h265.clone().unwrap(),
        };
        assert_eq!(winner.format, format);
        let at = coders.iter().position(|c| *c == winner).unwrap();
        for (j, c) in coders.iter().enumerate() {
            if c.format == format {
                assert!(c.score <= winner.score);
                if j < at {
                    assert!(c.score < winner.score);
                }
            }
        }
    }
    assert_eq!(best.h264.unwrap().name, "y1");
    assert_eq!(best.h265.unwrap().name, "x1");
}

#[test]
fn score_with_negative_scores_only() {
    let best = CodecInfo::score(vec![
        entry("n1", DataFormat::H265, -3),
        entry("n2", DataFormat::H265, -2),
    ]);
    assert_eq!(best.h264, None);
    assert_eq!(best.h265, Some(entry("n2", DataFormat::H265, -2)));
}

#[test]
fn score_is_repeatable() {
    let coders = vec![
        entry("a", DataFormat::H264, 4),
        entry("b", DataFormat::H265, 4),
        entry("c", DataFormat::H264, 4),
    ];
    assert_eq!(CodecInfo::score(coders.clone()), CodecInfo::score(coders));
}

#[test]
fn default_codec_info_fields() {
    let d = CodecInfo::default();
    assert_eq!(d.name, "");
    assert_eq!(d.format, DataFormat::H264);
    assert_eq!(d.vendor, Vendor::OTHER);
    assert_eq!(d.score, 0);
    assert_eq!(d.hwdevice, AVHWDeviceType::AV_HWDEVICE_TYPE_NONE);
}

#[test]
fn codec_info_equality_reads_every_field() {
    let base = entry("a", DataFormat::H264, 1);
    assert_eq!(base, base.clone());
    assert_ne!(base, entry("b", DataFormat::H264, 1));
    assert_ne!(base, entry("a", DataFormat::H265, 1));
    assert_ne!(base, entry("a", DataFormat::H264, 2));
    let mut other = base.clone();
    other.vendor = Vendor::AMD;
    assert_ne!(base, other);
    let mut other = base.clone();
    other.hwdevice = AVHWDeviceType::AV_HWDEVICE_TYPE_CUDA;
    assert_ne!(base, other);
}

#[test]
fn codec_infos_equality_and_clone() {
    let a = CodecInfos { h264: Some(entry("a", DataFormat::H264, 1)), h265: None };
    assert_eq!(a, a.clone());
    assert_ne!(a, CodecInfos { h264: None, h265: None });
    assert_ne!(a, CodecInfos { h264: None, h265: Some(entry("a", DataFormat::H264, 1)) });
    assert_ne!(a, CodecInfos { h264: Some(entry("a", DataFormat::H264, 2)), h265: None });
}

#[test]
fn select_agrees_with_score() {
    let coders = vec![
        entry("a", DataFormat::H265, 2),
        entry("b", DataFormat::H264, 2),
        entry("c", DataFormat::H265, 3),
    ];
    assert_eq!(CodecInfo::select(&coders), CodecInfo::score(coders));
}
