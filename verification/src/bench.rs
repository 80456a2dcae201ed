//! What the benchmark computes between its calls into the codec sessions: the
//! synthetic frames it feeds, whether a backend is the selected best, the
//! reference stream it collects, and the text a run is reported under.

use crate::ffmpeg::{AVHWDeviceType, CodecInfo, CodecInfoModel, CodecInfos, CodecInfosModel};
use vstd::arithmetic::div_mod::lemma_fundamental_div_mod_converse;
use vstd::prelude::*;

verus! {

/// Bytes per row of a synthetic frame of the given width.
pub open spec fn frame_linesize(width: int) -> int {
    width * 3 / 2
}

/// The byte at position `p` of frame number `index`: the sum of its column,
/// its row and the frame number, reduced to a byte.
pub open spec fn frame_byte(linesize: int, p: int, index: int) -> int {
    ((p % linesize) + (p / linesize) + index) % 256
}

/// `frame` is frame number `index` of `height` rows of `linesize` bytes.
pub open spec fn is_frame(frame: Seq<u8>, linesize: int, height: int, index: int) -> bool {
    &&& frame.len() == linesize * height
    &&& forall|p: int| 0 <= p < frame.len() ==> #[trigger] frame[p] == frame_byte(linesize, p, index)
}

/// In a synthetic frame the byte of column `x` and row `y` is `x + y + index`
/// reduced to a byte.
pub proof fn lemma_frame_at(
    frame: Seq<u8>,
    linesize: int,
    height: int,
    index: int,
    x: int,
    y: int,
)
    requires
        is_frame(frame, linesize, height, index),
        0 <= x < linesize,
        0 <= y < height,
    ensures
        0 <= linesize * y + x < frame.len(),
        frame[linesize * y + x] == (x + y + index) % 256,
{
    let p = linesize * y + x;
    assert(0 <= linesize * y && linesize * y + linesize <= linesize * height) by (nonlinear_arith)
        requires
            0 <= y < height,
            0 < linesize,
    ;
    assert(p == y * linesize + x) by (nonlinear_arith)
        requires
            p == linesize * y + x,
    ;
    lemma_fundamental_div_mod_converse(p, linesize, y, x);
    assert(frame[p] == frame_byte(linesize, p, index));
}

/// The byte of column `x` and row `y` in frame number `index`.
pub fn pixel(x: usize, y: usize, index: usize) -> (byte: u8)
    ensures
        byte == (x + y + index) % 256,
{
    let a: usize = x % 256;
    let b: usize = y % 256;
    let c: usize = index % 256;
    ((a + b + c) % 256) as u8
}

/// Builds frame number `index`: `height` rows of `linesize` bytes.
pub fn synthesize_frame(linesize: usize, height: usize, index: usize) -> (frame: Vec<u8>)
    requires
        linesize * height <= usize::MAX,
    ensures
        is_frame(frame@, linesize as int, height as int, index as int),
{
    let mut yuv: Vec<u8> = Vec::new();
    let mut y: usize = 0;
    while y < height
        invariant
            y <= height,
            yuv.len() == linesize * y,
            forall|p: int|
                0 <= p < yuv.len() ==> #[trigger] yuv[p] == frame_byte(
                    linesize as int,
                    p,
                    index as int,
                ),
        decreases height - y,
    {
        let ghost base: int = linesize * y;
        let mut x: usize = 0;
        while x < linesize
            invariant
                x <= linesize,
                base == y * linesize,
                yuv.len() == base + x,
                forall|p: int|
                    0 <= p < yuv.len() ==> #[trigger] yuv[p] == frame_byte(
                        linesize as int,
                        p,
                        index as int,
                    ),
            decreases linesize - x,
        {
            let byte = pixel(x, y, index);
            proof {
                lemma_fundamental_div_mod_converse(base + x, linesize as int, y as int, x as int);
            }
            yuv.push(byte);
            x += 1;
        }
        assert(linesize * (y + 1) == linesize * y + linesize) by (nonlinear_arith);
        y += 1;
    }
    yuv
}

/// Synthesizes `count` raw frames of the given size, numbered from zero. The
/// content depends on the position in the frame and the frame's number alone.
pub fn prepare_yuv(width: usize, height: usize, count: usize) -> (frames: Vec<Vec<u8>>)
    requires
        width * 3 <= usize::MAX,
        frame_linesize(width as int) * height <= usize::MAX,
    ensures
        frames.len() == count,
        forall|i: int|
            0 <= i < count ==> is_frame(
                (#[trigger] frames[i])@,
                frame_linesize(width as int),
                height as int,
                i,
            ),
{
    let linesize: usize = width * 3 / 2;
    let mut ret: Vec<Vec<u8>> = Vec::new();
    for index in 0..count
        invariant
            linesize == frame_linesize(width as int),
            linesize * height <= usize::MAX,
            ret.len() == index,
            forall|i: int|
                0 <= i < index ==> is_frame(
                    (#[trigger] ret[i])@,
                    linesize as int,
                    height as int,
                    i,
                ),
    {
        let yuv = synthesize_frame(linesize, height, index);
        ret.push(yuv);
    }
    ret
}

/// `info` is the backend that `best` holds for one of the two families.
pub open spec fn marks(best: CodecInfosModel, info: CodecInfoModel) -> bool {
    best.h264 == Some(info) || best.h265 == Some(info)
}

/// Whether `info` is the selected best backend of either family.
pub fn is_best(best: &CodecInfos, info: &CodecInfo) -> (res: bool)
    ensures
        res == marks(best@, info@),
{
    let in264 = match &best.h264 {
        Some(c) => c == info,
        None => false,
    };
    let in265 = match &best.h265 {
        Some(c) => c == info,
        None => false,
    };
    in264 || in265
}

/// Adds the chunks that one encode call emitted to a reference stream, behind
/// what the stream holds and in the order of their emission.
pub fn retain_chunks(stream: &mut Vec<Vec<u8>>, emitted: Vec<Vec<u8>>)
    ensures
        final(stream)@ == old(stream)@ + emitted@,
{
    let mut rest = emitted;
    stream.append(&mut rest);
}

/// The name a device type is reported under.
pub open spec fn device_text(device: AVHWDeviceType) -> Seq<char> {
    match device {
        AVHWDeviceType::AV_HWDEVICE_TYPE_NONE => "AV_HWDEVICE_TYPE_NONE"@,
        AVHWDeviceType::AV_HWDEVICE_TYPE_VDPAU => "AV_HWDEVICE_TYPE_VDPAU"@,
        AVHWDeviceType::AV_HWDEVICE_TYPE_CUDA => "AV_HWDEVICE_TYPE_CUDA"@,
        AVHWDeviceType::AV_HWDEVICE_TYPE_VAAPI => "AV_HWDEVICE_TYPE_VAAPI"@,
        AVHWDeviceType::AV_HWDEVICE_TYPE_DXVA2 => "AV_HWDEVICE_TYPE_DXVA2"@,
        AVHWDeviceType::AV_HWDEVICE_TYPE_QSV => "AV_HWDEVICE_TYPE_QSV"@,
        AVHWDeviceType::AV_HWDEVICE_TYPE_VIDEOTOOLBOX => "AV_HWDEVICE_TYPE_VIDEOTOOLBOX"@,
        AVHWDeviceType::AV_HWDEVICE_TYPE_D3D11VA => "AV_HWDEVICE_TYPE_D3D11VA"@,
        AVHWDeviceType::AV_HWDEVICE_TYPE_DRM => "AV_HWDEVICE_TYPE_DRM"@,
        AVHWDeviceType::AV_HWDEVICE_TYPE_OPENCL => "AV_HWDEVICE_TYPE_OPENCL"@,
        AVHWDeviceType::AV_HWDEVICE_TYPE_MEDIACODEC => "AV_HWDEVICE_TYPE_MEDIACODEC"@,
        AVHWDeviceType::AV_HWDEVICE_TYPE_VULKAN => "AV_HWDEVICE_TYPE_VULKAN"@,
    }
}

/// The name a device type is reported under.
pub fn device_name(device: AVHWDeviceType) -> (res: &'static str)
    ensures
        res@ == device_text(device),
{
    match device {
        AVHWDeviceType::AV_HWDEVICE_TYPE_NONE => "AV_HWDEVICE_TYPE_NONE",
        AVHWDeviceType::AV_HWDEVICE_TYPE_VDPAU => "AV_HWDEVICE_TYPE_VDPAU",
        AVHWDeviceType::AV_HWDEVICE_TYPE_CUDA => "AV_HWDEVICE_TYPE_CUDA",
        AVHWDeviceType::AV_HWDEVICE_TYPE_VAAPI => "AV_HWDEVICE_TYPE_VAAPI",
        AVHWDeviceType::AV_HWDEVICE_TYPE_DXVA2 => "AV_HWDEVICE_TYPE_DXVA2",
        AVHWDeviceType::AV_HWDEVICE_TYPE_QSV => "AV_HWDEVICE_TYPE_QSV",
        AVHWDeviceType::AV_HWDEVICE_TYPE_VIDEOTOOLBOX => "AV_HWDEVICE_TYPE_VIDEOTOOLBOX",
        AVHWDeviceType::AV_HWDEVICE_TYPE_D3D11VA => "AV_HWDEVICE_TYPE_D3D11VA",
        AVHWDeviceType::AV_HWDEVICE_TYPE_DRM => "AV_HWDEVICE_TYPE_DRM",
        AVHWDeviceType::AV_HWDEVICE_TYPE_OPENCL => "AV_HWDEVICE_TYPE_OPENCL",
        AVHWDeviceType::AV_HWDEVICE_TYPE_MEDIACODEC => "AV_HWDEVICE_TYPE_MEDIACODEC",
        AVHWDeviceType::AV_HWDEVICE_TYPE_VULKAN => "AV_HWDEVICE_TYPE_VULKAN",
    }
}

/// The text a run is reported under, up to the duration that follows it: a
/// star where the backend is the selected best, the backend's name, a space
/// and the device type where one is given, then a colon and a space.
pub open spec fn label_text(best: bool, name: Seq<char>, device: Option<AVHWDeviceType>) -> Seq<
    char,
> {
    let marked = if best {
        "*"@ + name
    } else {
        name
    };
    let placed = match device {
        Some(d) => marked + " "@ + device_text(d),
        None => marked,
    };
    placed + ": "@
}

/// Builds the text a run is reported under; the caller appends the average
/// duration.
pub fn report_label(best: bool, name: &str, device: Option<AVHWDeviceType>) -> (res: String)
    ensures
        res@ == label_text(best, name@, device),
{
    let mut line = String::new();
    if best {
        line.append("*");
    }
    line.append(name);
    assert(line@ =~= if best {
        "*"@ + name@
    } else {
        name@
    });
    match device {
        Some(d) => {
            line.append(" ");
            line.append(device_name(d));
        },
        None => {},
    }
    line.append(": ");
    line
}

} // verus!
