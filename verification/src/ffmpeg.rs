//! Capability model of codec backends and the selection of the best one per
//! codec family.

use vstd::prelude::*;

verus! {

/// Codec family of a backend.
#[derive(Debug, Eq, PartialEq, Clone, Copy, Structural)]
pub enum DataFormat {
    H264,
    H265,
}

/// Maker of the hardware a backend runs on. Informational only.
#[derive(Debug, Eq, PartialEq, Clone, Copy, Structural)]
pub enum Vendor {
    NVIDIA,
    AMD,
    INTEL,
    OTHER,
}

/// Kind of hardware acceleration device a backend binds to; `NONE` stands for
/// a pure software path.
#[allow(non_camel_case_types)]
#[derive(Debug, Eq, PartialEq, Clone, Copy, Structural)]
pub enum AVHWDeviceType {
    AV_HWDEVICE_TYPE_NONE,
    AV_HWDEVICE_TYPE_VDPAU,
    AV_HWDEVICE_TYPE_CUDA,
    AV_HWDEVICE_TYPE_VAAPI,
    AV_HWDEVICE_TYPE_DXVA2,
    AV_HWDEVICE_TYPE_QSV,
    AV_HWDEVICE_TYPE_VIDEOTOOLBOX,
    AV_HWDEVICE_TYPE_D3D11VA,
    AV_HWDEVICE_TYPE_DRM,
    AV_HWDEVICE_TYPE_OPENCL,
    AV_HWDEVICE_TYPE_MEDIACODEC,
    AV_HWDEVICE_TYPE_VULKAN,
}

/// One backend: its identity, family, vendor, capability score and device.
#[derive(Debug)]
pub struct CodecInfo {
    pub name: String,
    pub format: DataFormat,
    pub vendor: Vendor,
    pub score: i32,
    pub hwdevice: AVHWDeviceType,
}

/// Mathematical value of a [`CodecInfo`].
pub struct CodecInfoModel {
    pub name: Seq<char>,
    pub format: DataFormat,
    pub vendor: Vendor,
    pub score: int,
    pub hwdevice: AVHWDeviceType,
}

impl View for CodecInfo {
    type V = CodecInfoModel;

    open spec fn view(&self) -> CodecInfoModel {
        CodecInfoModel {
            name: self.name@,
            format: self.format,
            vendor: self.vendor,
            score: self.score as int,
            hwdevice: self.hwdevice,
        }
    }
}

impl Clone for CodecInfo {
    fn clone(&self) -> (res: Self)
        ensures
            res@ == self@,
    {
        CodecInfo {
            name: self.name.clone(),
            format: self.format,
            vendor: self.vendor,
            score: self.score,
            hwdevice: self.hwdevice,
        }
    }
}

impl PartialEq for CodecInfo {
    fn eq(&self, other: &Self) -> (res: bool) {
        self.name == other.name && self.format == other.format && self.vendor == other.vendor
            && self.score == other.score && self.hwdevice == other.hwdevice
    }
}

impl vstd::std_specs::cmp::PartialEqSpecImpl for CodecInfo {
    open spec fn obeys_eq_spec() -> bool {
        true
    }

    open spec fn eq_spec(&self, other: &Self) -> bool {
        self.name@ == other.name@ && self.format == other.format && self.vendor == other.vendor
            && self.score == other.score && self.hwdevice == other.hwdevice
    }
}

impl Eq for CodecInfo {

}

impl Default for CodecInfo {
    fn default() -> (res: Self)
        ensures
            res@ == (CodecInfoModel {
                name: Seq::<char>::empty(),
                format: DataFormat::H264,
                vendor: Vendor::OTHER,
                score: 0,
                hwdevice: AVHWDeviceType::AV_HWDEVICE_TYPE_NONE,
            }),
    {
        CodecInfo {
            name: String::new(),
            format: DataFormat::H264,
            vendor: Vendor::OTHER,
            score: 0,
            hwdevice: AVHWDeviceType::AV_HWDEVICE_TYPE_NONE,
        }
    }
}

/// The values of a list of backends, in the list's order.
pub open spec fn models(coders: Seq<CodecInfo>) -> Seq<CodecInfoModel> {
    coders.map_values(|c: CodecInfo| c@)
}

/// Some entry among the first `n` belongs to the family `format`.
pub open spec fn has_format(entries: Seq<CodecInfoModel>, n: int, format: DataFormat) -> bool {
    exists|j: int| 0 <= j < n && (#[trigger] entries[j]).format == format
}

/// Among the first `n` entries, entry `i` is of family `format`, no entry of
/// that family scores higher, and every earlier one of that family scores
/// strictly lower.
pub open spec fn first_max_in(
    entries: Seq<CodecInfoModel>,
    n: int,
    format: DataFormat,
    i: int,
) -> bool {
    &&& 0 <= i < n <= entries.len()
    &&& entries[i].format == format
    &&& forall|j: int|
        0 <= j < n && (#[trigger] entries[j]).format == format ==> entries[j].score
            <= entries[i].score
    &&& forall|j: int|
        0 <= j < i && (#[trigger] entries[j]).format == format ==> entries[j].score
            < entries[i].score
}

/// Position of the selected entry of family `format`, where there is one.
pub open spec fn best_index(entries: Seq<CodecInfoModel>, format: DataFormat) -> int {
    choose|i: int| first_max_in(entries, entries.len() as int, format, i)
}

/// The entry selected for family `format`: the first of those with the
/// highest score, or nothing where the family has no entry.
pub open spec fn selected(entries: Seq<CodecInfoModel>, format: DataFormat) -> Option<
    CodecInfoModel,
> {
    if has_format(entries, entries.len() as int, format) {
        Some(entries[best_index(entries, format)])
    } else {
        None
    }
}

/// At most one position is the first maximum of a family: two such positions
/// coincide.
pub proof fn lemma_first_max_unique(
    entries: Seq<CodecInfoModel>,
    n: int,
    format: DataFormat,
    i: int,
    j: int,
)
    requires
        first_max_in(entries, n, format, i),
        first_max_in(entries, n, format, j),
    ensures
        i == j,
{
    if i < j {
        assert(entries[i].score < entries[j].score);
        assert(entries[j].score <= entries[i].score);
    } else if j < i {
        assert(entries[j].score < entries[i].score);
        assert(entries[i].score <= entries[j].score);
    }
}

/// A family with an entry among the first `n` has a first maximum there.
pub proof fn lemma_first_max_exists(entries: Seq<CodecInfoModel>, n: int, format: DataFormat)
    requires
        0 <= n <= entries.len(),
        has_format(entries, n, format),
    ensures
        exists|i: int| first_max_in(entries, n, format, i),
    decreases n,
{
    let last = n - 1;
    if has_format(entries, last, format) {
        lemma_first_max_exists(entries, last, format);
        let i = choose|i: int| first_max_in(entries, last, format, i);
        if entries[last].format == format && entries[i].score < entries[last].score {
            assert(first_max_in(entries, n, format, last));
        } else {
            assert(first_max_in(entries, n, format, i));
        }
    } else {
        let j = choose|j: int| 0 <= j < n && (#[trigger] entries[j]).format == format;
        assert(j == last);
        assert(first_max_in(entries, n, format, last));
    }
}

/// The selection law: for every list and family, the selected entry is an
/// entry of that family, no entry of the family scores higher, every earlier
/// entry of the family scores strictly lower (so ties go to the first), and
/// nothing is selected exactly where the family has no entry.
pub proof fn lemma_selected_is_first_maximum(entries: Seq<CodecInfoModel>, format: DataFormat)
    ensures
        selected(entries, format) is None <==> forall|j: int|
            0 <= j < entries.len() ==> (#[trigger] entries[j]).format != format,
        selected(entries, format) matches Some(best) ==> {
            let i = best_index(entries, format);
            &&& 0 <= i < entries.len()
            &&& best == entries[i]
            &&& best.format == format
            &&& forall|j: int|
                0 <= j < entries.len() && (#[trigger] entries[j]).format == format
                    ==> entries[j].score <= best.score
            &&& forall|j: int|
                0 <= j < i && (#[trigger] entries[j]).format == format ==> entries[j].score
                    < best.score
        },
{
    if has_format(entries, entries.len() as int, format) {
        lemma_first_max_exists(entries, entries.len() as int, format);
    }
}

/// The best backend of each family, where the family has one.
#[derive(Debug)]
pub struct CodecInfos {
    pub h264: Option<CodecInfo>,
    pub h265: Option<CodecInfo>,
}

/// Mathematical value of a [`CodecInfos`].
pub struct CodecInfosModel {
    pub h264: Option<CodecInfoModel>,
    pub h265: Option<CodecInfoModel>,
}

/// Value of an optional backend.
pub open spec fn slot_model(slot: Option<CodecInfo>) -> Option<CodecInfoModel> {
    match slot {
        Some(c) => Some(c@),
        None => None,
    }
}

impl View for CodecInfos {
    type V = CodecInfosModel;

    open spec fn view(&self) -> CodecInfosModel {
        CodecInfosModel { h264: slot_model(self.h264), h265: slot_model(self.h265) }
    }
}

impl CodecInfos {
    /// The slots hold what the selection picks from `coders`, family by
    /// family.
    pub open spec fn is_selection_of(&self, coders: Seq<CodecInfo>) -> bool {
        &&& self@.h264 == selected(models(coders), DataFormat::H264)
        &&& self@.h265 == selected(models(coders), DataFormat::H265)
    }

    /// Each slot that is filled holds a backend of the slot's own family.
    pub open spec fn well_formed(&self) -> bool {
        &&& self.h264 matches Some(c) ==> c.format == DataFormat::H264
        &&& self.h265 matches Some(c) ==> c.format == DataFormat::H265
    }
}

fn clone_slot(slot: &Option<CodecInfo>) -> (res: Option<CodecInfo>)
    ensures
        slot_model(res) == slot_model(*slot),
{
    match slot {
        Some(c) => Some(c.clone()),
        None => None,
    }
}

fn same_slot(a: &Option<CodecInfo>, b: &Option<CodecInfo>) -> (res: bool)
    ensures
        res == (slot_model(*a) == slot_model(*b)),
{
    match (a, b) {
        (Some(x), Some(y)) => x == y,
        (None, None) => true,
        _ => false,
    }
}

impl Clone for CodecInfos {
    fn clone(&self) -> (res: Self)
        ensures
            res@ == self@,
    {
        CodecInfos { h264: clone_slot(&self.h264), h265: clone_slot(&self.h265) }
    }
}

impl PartialEq for CodecInfos {
    fn eq(&self, other: &Self) -> (res: bool) {
        same_slot(&self.h264, &other.h264) && same_slot(&self.h265, &other.h265)
    }
}

impl vstd::std_specs::cmp::PartialEqSpecImpl for CodecInfos {
    open spec fn obeys_eq_spec() -> bool {
        true
    }

    open spec fn eq_spec(&self, other: &Self) -> bool {
        slot_model(self.h264) == slot_model(other.h264) && slot_model(self.h265) == slot_model(
            other.h265,
        )
    }
}

impl Eq for CodecInfos {

}

/// What one slot holds after the first `n` entries were seen: nothing where
/// the family has had no entry, else the entry at `at`, the first maximum so
/// far.
spec fn slot_tracks(
    entries: Seq<CodecInfoModel>,
    n: int,
    format: DataFormat,
    slot: Option<CodecInfo>,
    at: int,
) -> bool {
    match slot {
        Some(c) => first_max_in(entries, n, format, at) && c@ == entries[at],
        None => !has_format(entries, n, format),
    }
}

impl CodecInfo {
    /// Reduces a list of backends to the best one of each family: the entry
    /// with the highest score, the first of them where several share it.
    pub fn score(coders: Vec<CodecInfo>) -> (res: CodecInfos)
        ensures
            res@.h264 == selected(models(coders@), DataFormat::H264),
            res@.h265 == selected(models(coders@), DataFormat::H265),
            res.well_formed(),
    {
        Self::select(&coders)
    }

    /// The selection that [`CodecInfo::score`] makes, on a borrowed list.
    pub fn select(coders: &Vec<CodecInfo>) -> (res: CodecInfos)
        ensures
            res.is_selection_of(coders@),
            res.well_formed(),
    {
        let mut h264: Option<CodecInfo> = None;
        let mut h265: Option<CodecInfo> = None;
        let ghost entries = models(coders@);
        let ghost mut at264: int = 0;
        let ghost mut at265: int = 0;

        for k in 0..coders.len()
            invariant
                entries == models(coders@),
                entries.len() == coders.len(),
                slot_tracks(entries, k as int, DataFormat::H264, h264, at264),
                slot_tracks(entries, k as int, DataFormat::H265, h265, at265),
                h264 matches Some(c) ==> c.format == DataFormat::H264,
                h265 matches Some(c) ==> c.format == DataFormat::H265,
        {
            let coder = &coders[k];
            assert(entries[k as int] == coder@);
            match coder.format {
                DataFormat::H264 => {
                    let replace = match &h264 {
                        Some(cur) => cur.score < coder.score,
                        None => true,
                    };
                    if replace {
                        h264 = Some(coder.clone());
                        proof {
                            at264 = k as int;
                        }
                    }
                },
                DataFormat::H265 => {
                    let replace = match &h265 {
                        Some(cur) => cur.score < coder.score,
                        None => true,
                    };
                    if replace {
                        h265 = Some(coder.clone());
                        proof {
                            at265 = k as int;
                        }
                    }
                },
            }
        }
        proof {
            let n = entries.len() as int;
            if h264 is Some {
                assert(has_format(entries, n, DataFormat::H264));
                lemma_first_max_unique(
                    entries,
                    n,
                    DataFormat::H264,
                    at264,
                    best_index(entries, DataFormat::H264),
                );
            }
            if h265 is Some {
                assert(has_format(entries, n, DataFormat::H265));
                lemma_first_max_unique(
                    entries,
                    n,
                    DataFormat::H265,
                    at265,
                    best_index(entries, DataFormat::H265),
                );
            }
        }
        CodecInfos { h264, h265 }
    }
}

} // verus!
