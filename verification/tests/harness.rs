use hwcodec::bench::{
    device_name, is_best, pixel, prepare_yuv, report_label, retain_chunks, synthesize_frame,
};
use hwcodec::ffmpeg::{AVHWDeviceType, CodecInfo, CodecInfos, DataFormat, Vendor};

fn backend(name: &str, format: DataFormat, score: i32) -> CodecInfo {
    CodecInfo {
        name: String::from(name),
        format,
        vendor: Vendor::NVIDIA,
        score,
        hwdevice: AVHWDeviceType::AV_HWDEVICE_TYPE_CUDA,
    }
}

#[test]
fn one_frame_of_four_by_two_has_twelve_bytes() {
    let frames = prepare_yuv(4, 2, 1);
    assert_eq!(frames.len(), 1);
    assert_eq!(frames[0].len(), 12);
    assert_eq!(frames[0], vec![0u8, 1, 2, 3, 4, 5, 1, 2, 3, 4, 5, 6]);
}

#[test]
fn frames_differ_by_their_number() {
    let frames = prepare_yuv(2, 2, 3);
    assert_eq!(frames.len(), 3);
    assert_eq!(frames[0], vec![0u8, 1, 2, 1, 2, 3]);
    assert_eq!(frames[1], vec![1u8, 2, 3, 2, 3, 4]);
    assert_eq!(frames[2], vec![2u8, 3, 4, 3, 4, 5]);
}

#[test]
fn frames_are_repeatable() {
    assert_eq!(prepare_yuv(16, 8, 4), prepare_yuv(16, 8, 4));
}

#[test]
fn frame_bytes_wrap_at_a_byte() {
    let frames = prepare_yuv(200, 2, 1);
    assert_eq!(frames[0].len(), 600);
    assert_eq!(frames[0][255], 255);
    assert_eq!(frames[0][256], 0);
    assert_eq!(frames[0][299], 43);
    assert_eq!(frames[0][300], 1);
    assert_eq!(frames[0][300 + 255], 0);
}

#[test]
fn odd_width_rounds_the_line_size_down() {
    let frames = prepare_yuv(3, 1, 1);
    assert_eq!(frames[0], vec![0u8, 1, 2, 3]);
}

#[test]
fn no_frames_and_empty_frames() {
    assert_eq!(prepare_yuv(4, 2, 0), Vec::<Vec<u8>>::new());
    assert_eq!(prepare_yuv(0, 5, 2), vec![Vec::<u8>::new(), Vec::new()]);
    assert_eq!(prepare_yuv(5, 0, 1), vec![Vec::<u8>::new()]);
}

#[test]
fn synthesize_frame_by_line_size() {
    assert_eq!(synthesize_frame(3, 2, 254), vec![254u8, 255, 0, 255, 0, 1]);
}

#[test]
fn pixel_is_the_sum_reduced_to_a_byte() {
    assert_eq!(pixel(0, 0, 0), 0);
    assert_eq!(pixel(1, 2, 3), 6);
    assert_eq!(pixel(255, 1, 0), 0);
    assert_eq!(pixel(1000, 1000, 999), (2999 % 256) as u8);
    assert_eq!(pixel(usize::MAX, 0, 0), 255);
    assert_eq!(pixel(usize::MAX, 1, 0), 0);
}

#[test]
fn is_best_tests_full_equality() {
    let a = backend("h264_nvenc", DataFormat::H264, 10);
    let b = backend("hevc_nvenc", DataFormat::H265, 10);
    let best = CodecInfos { h264: Some(a.clone()), h265: Some(b.clone()) };
    assert!(is_best(&best, &a));
    assert!(is_best(&best, &b));
    let mut near = a.clone();
    near.score = 9;
    assert!(!is_best(&best, &near));
    assert!(!is_best(&CodecInfos { h264: None, h265: None }, &a));
    assert!(is_best(&CodecInfos { h264: None, h265: Some(a.clone()) }, &a));
}

#[test]
fn is_best_agrees_with_score() {
    let coders = vec![
        backend("h264_a", DataFormat::H264, 1),
        backend("h264_b", DataFormat::H264, 3),
        backend("hevc_a", DataFormat::H265, 2),
    ];
    let best = CodecInfo::score(coders.clone());
    let flags: Vec<bool> = coders.iter().map(|c| is_best(&best, c)).collect();
    assert_eq!(flags, vec![false, true, true]);
}

#[test]
fn report_label_forms() {
    assert_eq!(report_label(true, "h264_nvenc", None), "*h264_nvenc: ");
    assert_eq!(report_label(false, "h264_nvenc", None), "h264_nvenc: ");
    assert_eq!(
        report_label(true, "hevc_cuvid", Some(AVHWDeviceType::AV_HWDEVICE_TYPE_CUDA)),
        "*hevc_cuvid AV_HWDEVICE_TYPE_CUDA: "
    );
    assert_eq!(
        report_label(false, "h264", Some(AVHWDeviceType::AV_HWDEVICE_TYPE_NONE)),
        "h264 AV_HWDEVICE_TYPE_NONE: "
    );
}

#[test]
fn device_names_are_the_variant_names() {
    let all = [
        AVHWDeviceType::AV_HWDEVICE_TYPE_NONE,
        AVHWDeviceType::AV_HWDEVICE_TYPE_VDPAU,
        AVHWDeviceType::AV_HWDEVICE_TYPE_CUDA,
        AVHWDeviceType::AV_HWDEVICE_TYPE_VAAPI,
        AVHWDeviceType::AV_HWDEVICE_TYPE_DXVA2,
        AVHWDeviceType::AV_HWDEVICE_TYPE_QSV,
        AVHWDeviceType::AV_HWDEVICE_TYPE_VIDEOTOOLBOX,
        AVHWDeviceType::AV_HWDEVICE_TYPE_D3D11VA,
        AVHWDeviceType::AV_HWDEVICE_TYPE_DRM,
        AVHWDeviceType::AV_HWDEVICE_TYPE_OPENCL,
        AVHWDeviceType::AV_HWDEVICE_TYPE_MEDIACODEC,
        AVHWDeviceType::AV_HWDEVICE_TYPE_VULKAN,
    ];
    for d in all {
        assert_eq!(device_name(d), format!("{:?}", d));
    }
}

#[test]
fn chunks_are_retained_in_emission_order() {
    let mut stream = vec![vec![1u8, 2]];
    retain_chunks(&mut stream, vec![vec![3u8], vec![], vec![4u8, 5]]);
    retain_chunks(&mut stream, vec![]);
    retain_chunks(&mut stream, vec![vec![6u8]]);
    assert_eq!(stream, vec![vec![1u8, 2], vec![3], vec![], vec![4, 5], vec![6]]);
}
