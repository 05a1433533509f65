//! The code registry: which integer codes denote which kinds of tag and of block.
//!
//! A tag's code is either one of six structural codes ([`BlockTagKind`]), one of
//! the known data codes ([`DataTagKind`]), or unrecognized. The integer that a
//! block start carries names the block ([`BlockKind`]); an integer without a
//! name is kept as [`BlockKind::Code`].
//!
//! Each enum states its table once, as the spec function `spec_code` from a
//! kind to its code. The lookups `from_code` are specified as the inverse of
//! that table, and the laws at the end of the file say that the inverse is
//! well defined.
use vstd::prelude::*;

verus! {

/// A code that is not in the table of data tags.
#[derive(Debug, PartialEq, Eq, Clone, Copy, Structural)]
pub struct UnrecognizedCode {
    pub code: i32,
}

/// A code that is not one of the six structural codes.
#[derive(Debug, PartialEq, Eq, Clone, Copy, Structural)]
pub struct NotABlockTag {
    pub code: i32,
}

/// The kind of an ordinary data tag.
#[derive(Debug, PartialEq, Eq, Clone, Copy, Hash, Structural)]
pub enum DataTagKind {
    FileId,
    DirPointer,
    Dir,
    FreeList,
    FreeBlock,
    Nop,
    ParentFileId,
    Creator,
    Modifier,
    RefRole,
    RefFileId,
    RefFileNum,
    RefFileName,
    RefBlockId,
    DacqPars,
    DacqStim,
    DeviceType,
    DeviceModel,
    DeviceSerial,
    DeviceSite,
    HeLevelRaw,
    HeliumLevel,
    OrigFileGuid,
    UtcOffset,
    Nchan,
    Sfreq,
    DataPack,
    ChInfo,
    MeasDate,
    Subject,
    Description,
    Nave,
    FirstSample,
    LastSample,
    AspectKind,
    RefEvent,
    Experimenter,
    DigPoint,
    ChPosVec,
    HpiSlopes,
    HpiNcoil,
    ReqEvent,
    ReqLimit,
    Lowpass,
    BadChs,
    ArtefRemoval,
    CoordTrans,
    Highpass,
    ChCalsVec,
    HpiBadChs,
    HpiCorrCoeff,
    EventComment,
    NoSamples,
    FirstTime,
    SubaveSize,
    SubaveFirst,
    Name,
    DigString,
    LineFreq,
    HpiCoilFreq,
    SignalChannel,
    HpiCoilMoments,
    HpiFitGoodness,
    HpiFitAccept,
    HpiFitGoodLimit,
    HpiFitDistLimit,
    HpiCoilNo,
    HpiCoilsUsed,
    HpiDigitizationOrder,
    ChScanNo,
    ChLogicalNo,
    ChKind,
    ChRange,
    ChCal,
    ChPos,
    ChUnit,
    ChUnitMul,
    ChDacqName,
    SssFrame,
    SssJob,
    SssOrigin,
    SssOrdIn,
    SssOrdOut,
    SssNmag,
    SssComponents,
    SssCalChans,
    SssCalCorrs,
    SssStCorr,
    SssBaseIn,
    SssBaseOut,
    SssBaseVirt,
    SssNorm,
    SssIterate,
    SssNfree,
    SssStLength,
    GantryType,
    GantryModel,
    GantryAngle,
    SssOperator,
    SssPsinv,
    SssCtc,
    DataBuffer,
    DataSkip,
    Epoch,
    DataSkipSamp,
    TimeStamp,
    ChCoilType,
    ChCoordFrame,
    SubjId,
    SubjFirstName,
    SubjMiddleName,
    SubjLastName,
    SubjBirthDay,
    SubjSex,
    SubjHand,
    SubjWeight,
    SubjHeight,
    SubjComment,
    SubjHisId,
    ProjId,
    ProjName,
    ProjAim,
    ProjPersons,
    ProjComment,
    EventChannels,
    EventList,
    EventChannel,
    EventBits,
    SquidBias,
    SquidOffset,
    SquidGate,
    DecouplerMatrix,
    CtmOpenAmps,
    CtmOpenPhase,
    CtmClosAmps,
    CtmClosPhase,
    CtmClosDote,
    CtmOpenDote,
    CtmExciFreq,
    RefPath,
    VolumeType,
    MriSourceFormat,
    MriPixelEncoding,
    MriPixelDataOffset,
    MriPixelScale,
    MriPixelData,
    MriPixelOverlayEncoding,
    MriPixelOverlayData,
    MriBoundingBox,
    MriWidth,
    MriWidthM,
    MriHeight,
    MriHeightM,
    MriDepth,
    MriDepthM,
    MriThickness,
    MriSceneAim,
    MriCalibrationScale,
    MriCalibrationOffset,
    MriOrigSourcePath,
    MriOrigSourceFormat,
    MriOrigPixelEncoding,
    MriOrigPixelDataOffset,
    MriTime,
    MriVoxelData,
    MriVoxelEncoding,
    VoxelNchannels,
    MriDiffusionWeight,
    MriDiffusionParam,
    MriMrilabSetup,
    MriSegRegionId,
    ConductorModelKind,
    SphereOrigin,
    SphereCoordFrame,
    SphereLayers,
    BemSurfId,
    BemSurfName,
    BemSurfNnode,
    BemSurfNtri,
    BemSurfNodes,
    BemSurfTriangles,
    BemSurfNormals,
    BemSurfCurvs,
    BemSurfCurvValues,
    BemPotSolution,
    BemApprox,
    BemCoordFrame,
    BemSigma,
    SourceDipole,
    BeamformerInstructions,
    XfitLeadProducts,
    XfitMapProducts,
    XfitGradMapProducts,
    XfitVolIntegration,
    XfitIntegrationRadius,
    XfitConductorModelName,
    XfitConductorModelTransName,
    XfitContSurfType,
    ProjItemKind,
    ProjItemTime,
    ProjItemIgnChs,
    ProjItemNvec,
    ProjItemVectors,
    ProjItemDefinition,
    ProjItemChNameList,
    XplotterLayout,
    VolId,
    VolName,
    VolOwnerId,
    VolOwnerName,
    VolOwnerRealName,
    VolType,
    VolHost,
    VolRealRoot,
    VolSymbolicRoot,
    VolMountPoint,
    VolBlocks,
    VolFreeBlocks,
    VolAvailBlocks,
    VolBlockSize,
    VolDirectory,
    MemDataBuffer,
}

impl DataTagKind {
    /// The code that a file writes for this kind.
    pub open spec fn spec_code(self) -> i32 {
        match self {
            DataTagKind::FileId => 100,
            DataTagKind::DirPointer => 101,
            DataTagKind::Dir => 102,
            DataTagKind::FreeList => 106,
            DataTagKind::FreeBlock => 107,
            DataTagKind::Nop => 108,
            DataTagKind::ParentFileId => 109,
            DataTagKind::Creator => 113,
            DataTagKind::Modifier => 114,
            DataTagKind::RefRole => 115,
            DataTagKind::RefFileId => 116,
            DataTagKind::RefFileNum => 117,
            DataTagKind::RefFileName => 118,
            DataTagKind::RefBlockId => 120,
            DataTagKind::DacqPars => 150,
            DataTagKind::DacqStim => 151,
            DataTagKind::DeviceType => 152,
            DataTagKind::DeviceModel => 153,
            DataTagKind::DeviceSerial => 154,
            DataTagKind::DeviceSite => 155,
            DataTagKind::HeLevelRaw => 156,
            DataTagKind::HeliumLevel => 157,
            DataTagKind::OrigFileGuid => 158,
            DataTagKind::UtcOffset => 159,
            DataTagKind::Nchan => 200,
            DataTagKind::Sfreq => 201,
            DataTagKind::DataPack => 202,
            DataTagKind::ChInfo => 203,
            DataTagKind::MeasDate => 204,
            DataTagKind::Subject => 205,
            DataTagKind::Description => 206,
            DataTagKind::Nave => 207,
            DataTagKind::FirstSample => 208,
            DataTagKind::LastSample => 209,
            DataTagKind::AspectKind => 210,
            DataTagKind::RefEvent => 211,
            DataTagKind::Experimenter => 212,
            DataTagKind::DigPoint => 213,
            DataTagKind::ChPosVec => 214,
            DataTagKind::HpiSlopes => 215,
            DataTagKind::HpiNcoil => 216,
            DataTagKind::ReqEvent => 217,
            DataTagKind::ReqLimit => 218,
            DataTagKind::Lowpass => 219,
            DataTagKind::BadChs => 220,
            DataTagKind::ArtefRemoval => 221,
            DataTagKind::CoordTrans => 222,
            DataTagKind::Highpass => 223,
            DataTagKind::ChCalsVec => 224,
            DataTagKind::HpiBadChs => 225,
            DataTagKind::HpiCorrCoeff => 226,
            DataTagKind::EventComment => 227,
            DataTagKind::NoSamples => 228,
            DataTagKind::FirstTime => 229,
            DataTagKind::SubaveSize => 230,
            DataTagKind::SubaveFirst => 231,
            DataTagKind::Name => 233,
            DataTagKind::DigString => 234,
            DataTagKind::LineFreq => 235,
            DataTagKind::HpiCoilFreq => 236,
            DataTagKind::SignalChannel => 237,
            DataTagKind::HpiCoilMoments => 240,
            DataTagKind::HpiFitGoodness => 241,
            DataTagKind::HpiFitAccept => 242,
            DataTagKind::HpiFitGoodLimit => 243,
            DataTagKind::HpiFitDistLimit => 244,
            DataTagKind::HpiCoilNo => 245,
            DataTagKind::HpiCoilsUsed => 246,
            DataTagKind::HpiDigitizationOrder => 247,
            DataTagKind::ChScanNo => 250,
            DataTagKind::ChLogicalNo => 251,
            DataTagKind::ChKind => 252,
            DataTagKind::ChRange => 253,
            DataTagKind::ChCal => 254,
            DataTagKind::ChPos => 255,
            DataTagKind::ChUnit => 256,
            DataTagKind::ChUnitMul => 257,
            DataTagKind::ChDacqName => 258,
            DataTagKind::SssFrame => 263,
            DataTagKind::SssJob => 264,
            DataTagKind::SssOrigin => 265,
            DataTagKind::SssOrdIn => 266,
            DataTagKind::SssOrdOut => 267,
            DataTagKind::SssNmag => 268,
            DataTagKind::SssComponents => 269,
            DataTagKind::SssCalChans => 270,
            DataTagKind::SssCalCorrs => 271,
            DataTagKind::SssStCorr => 272,
            DataTagKind::SssBaseIn => 273,
            DataTagKind::SssBaseOut => 274,
            DataTagKind::SssBaseVirt => 275,
            DataTagKind::SssNorm => 276,
            DataTagKind::SssIterate => 277,
            DataTagKind::SssNfree => 278,
            DataTagKind::SssStLength => 279,
            DataTagKind::GantryType => 280,
            DataTagKind::GantryModel => 281,
            DataTagKind::GantryAngle => 282,
            DataTagKind::SssOperator => 290,
            DataTagKind::SssPsinv => 291,
            DataTagKind::SssCtc => 292,
            DataTagKind::DataBuffer => 300,
            DataTagKind::DataSkip => 301,
            DataTagKind::Epoch => 302,
            DataTagKind::DataSkipSamp => 303,
            DataTagKind::TimeStamp => 305,
            DataTagKind::ChCoilType => 350,
            DataTagKind::ChCoordFrame => 351,
            DataTagKind::SubjId => 400,
            DataTagKind::SubjFirstName => 401,
            DataTagKind::SubjMiddleName => 402,
            DataTagKind::SubjLastName => 403,
            DataTagKind::SubjBirthDay => 404,
            DataTagKind::SubjSex => 405,
            DataTagKind::SubjHand => 406,
            DataTagKind::SubjWeight => 407,
            DataTagKind::SubjHeight => 408,
            DataTagKind::SubjComment => 409,
            DataTagKind::SubjHisId => 410,
            DataTagKind::ProjId => 500,
            DataTagKind::ProjName => 501,
            DataTagKind::ProjAim => 502,
            DataTagKind::ProjPersons => 503,
            DataTagKind::ProjComment => 504,
            DataTagKind::EventChannels => 600,
            DataTagKind::EventList => 601,
            DataTagKind::EventChannel => 602,
            DataTagKind::EventBits => 603,
            DataTagKind::SquidBias => 701,
            DataTagKind::SquidOffset => 702,
            DataTagKind::SquidGate => 703,
            DataTagKind::DecouplerMatrix => 800,
            DataTagKind::CtmOpenAmps => 801,
            DataTagKind::CtmOpenPhase => 802,
            DataTagKind::CtmClosAmps => 803,
            DataTagKind::CtmClosPhase => 804,
            DataTagKind::CtmClosDote => 805,
            DataTagKind::CtmOpenDote => 806,
            DataTagKind::CtmExciFreq => 807,
            DataTagKind::RefPath => 1101,
            DataTagKind::VolumeType => 2001,
            DataTagKind::MriSourceFormat => 2002,
            DataTagKind::MriPixelEncoding => 2003,
            DataTagKind::MriPixelDataOffset => 2004,
            DataTagKind::MriPixelScale => 2005,
            DataTagKind::MriPixelData => 2006,
            DataTagKind::MriPixelOverlayEncoding => 2007,
            DataTagKind::MriPixelOverlayData => 2008,
            DataTagKind::MriBoundingBox => 2009,
            DataTagKind::MriWidth => 2010,
            DataTagKind::MriWidthM => 2011,
            DataTagKind::MriHeight => 2012,
            DataTagKind::MriHeightM => 2013,
            DataTagKind::MriDepth => 2014,
            DataTagKind::MriDepthM => 2015,
            DataTagKind::MriThickness => 2016,
            DataTagKind::MriSceneAim => 2017,
            DataTagKind::MriCalibrationScale => 2018,
            DataTagKind::MriCalibrationOffset => 2019,
            DataTagKind::MriOrigSourcePath => 2020,
            DataTagKind::MriOrigSourceFormat => 2021,
            DataTagKind::MriOrigPixelEncoding => 2022,
            DataTagKind::MriOrigPixelDataOffset => 2023,
            DataTagKind::MriTime => 2024,
            DataTagKind::MriVoxelData => 2030,
            DataTagKind::MriVoxelEncoding => 2031,
            DataTagKind::VoxelNchannels => 2032,
            DataTagKind::MriDiffusionWeight => 2040,
            DataTagKind::MriDiffusionParam => 2041,
            DataTagKind::MriMrilabSetup => 2100,
            DataTagKind::MriSegRegionId => 2200,
            DataTagKind::ConductorModelKind => 3000,
            DataTagKind::SphereOrigin => 3001,
            DataTagKind::SphereCoordFrame => 3002,
            DataTagKind::SphereLayers => 3003,
            DataTagKind::BemSurfId => 3101,
            DataTagKind::BemSurfName => 3102,
            DataTagKind::BemSurfNnode => 3103,
            DataTagKind::BemSurfNtri => 3104,
            DataTagKind::BemSurfNodes => 3105,
            DataTagKind::BemSurfTriangles => 3106,
            DataTagKind::BemSurfNormals => 3107,
            DataTagKind::BemSurfCurvs => 3108,
            DataTagKind::BemSurfCurvValues => 3109,
            DataTagKind::BemPotSolution => 3110,
            DataTagKind::BemApprox => 3111,
            DataTagKind::BemCoordFrame => 3112,
            DataTagKind::BemSigma => 3113,
            DataTagKind::SourceDipole => 3201,
            DataTagKind::BeamformerInstructions => 3300,
            DataTagKind::XfitLeadProducts => 3401,
            DataTagKind::XfitMapProducts => 3402,
            DataTagKind::XfitGradMapProducts => 3403,
            DataTagKind::XfitVolIntegration => 3404,
            DataTagKind::XfitIntegrationRadius => 3405,
            DataTagKind::XfitConductorModelName => 3406,
            DataTagKind::XfitConductorModelTransName => 3407,
            DataTagKind::XfitContSurfType => 3408,
            DataTagKind::ProjItemKind => 3411,
            DataTagKind::ProjItemTime => 3412,
            DataTagKind::ProjItemIgnChs => 3413,
            DataTagKind::ProjItemNvec => 3414,
            DataTagKind::ProjItemVectors => 3415,
            DataTagKind::ProjItemDefinition => 3416,
            DataTagKind::ProjItemChNameList => 3417,
            DataTagKind::XplotterLayout => 3501,
            DataTagKind::VolId => 4001,
            DataTagKind::VolName => 4002,
            DataTagKind::VolOwnerId => 4003,
            DataTagKind::VolOwnerName => 4004,
            DataTagKind::VolOwnerRealName => 4005,
            DataTagKind::VolType => 4006,
            DataTagKind::VolHost => 4007,
            DataTagKind::VolRealRoot => 4008,
            DataTagKind::VolSymbolicRoot => 4009,
            DataTagKind::VolMountPoint => 4010,
            DataTagKind::VolBlocks => 4011,
            DataTagKind::VolFreeBlocks => 4012,
            DataTagKind::VolAvailBlocks => 4013,
            DataTagKind::VolBlockSize => 4014,
            DataTagKind::VolDirectory => 4015,
            DataTagKind::MemDataBuffer => 10300,
        }
    }

    /// Whether some data kind has this code.
    pub open spec fn recognizes(code: i32) -> bool {
        exists|k: DataTagKind| #[trigger] k.spec_code() == code
    }

    /// The data kind with this code, if there is one.
    pub open spec fn of_code(code: i32) -> Option<DataTagKind> {
        if Self::recognizes(code) {
            Some(choose|k: DataTagKind| #[trigger] k.spec_code() == code)
        } else {
            None
        }
    }

    /// The name of this kind as the table of a search shows it: the words of
    /// the kind in lower case, with an underscore between each two.
    pub open spec fn spec_name(self) -> Seq<char> {
        match self {
            DataTagKind::FileId => "file_id"@,
            DataTagKind::DirPointer => "dir_pointer"@,
            DataTagKind::Dir => "dir"@,
            DataTagKind::FreeList => "free_list"@,
            DataTagKind::FreeBlock => "free_block"@,
            DataTagKind::Nop => "nop"@,
            DataTagKind::ParentFileId => "parent_file_id"@,
            DataTagKind::Creator => "creator"@,
            DataTagKind::Modifier => "modifier"@,
            DataTagKind::RefRole => "ref_role"@,
            DataTagKind::RefFileId => "ref_file_id"@,
            DataTagKind::RefFileNum => "ref_file_num"@,
            DataTagKind::RefFileName => "ref_file_name"@,
            DataTagKind::RefBlockId => "ref_block_id"@,
            DataTagKind::DacqPars => "dacq_pars"@,
            DataTagKind::DacqStim => "dacq_stim"@,
            DataTagKind::DeviceType => "device_type"@,
            DataTagKind::DeviceModel => "device_model"@,
            DataTagKind::DeviceSerial => "device_serial"@,
            DataTagKind::DeviceSite => "device_site"@,
            DataTagKind::HeLevelRaw => "he_level_raw"@,
            DataTagKind::HeliumLevel => "helium_level"@,
            DataTagKind::OrigFileGuid => "orig_file_guid"@,
            DataTagKind::UtcOffset => "utc_offset"@,
            DataTagKind::Nchan => "nchan"@,
            DataTagKind::Sfreq => "sfreq"@,
            DataTagKind::DataPack => "data_pack"@,
            DataTagKind::ChInfo => "ch_info"@,
            DataTagKind::MeasDate => "meas_date"@,
            DataTagKind::Subject => "subject"@,
            DataTagKind::Description => "description"@,
            DataTagKind::Nave => "nave"@,
            DataTagKind::FirstSample => "first_sample"@,
            DataTagKind::LastSample => "last_sample"@,
            DataTagKind::AspectKind => "aspect_kind"@,
            DataTagKind::RefEvent => "ref_event"@,
            DataTagKind::Experimenter => "experimenter"@,
            DataTagKind::DigPoint => "dig_point"@,
            DataTagKind::ChPosVec => "ch_pos_vec"@,
            DataTagKind::HpiSlopes => "hpi_slopes"@,
            DataTagKind::HpiNcoil => "hpi_ncoil"@,
            DataTagKind::ReqEvent => "req_event"@,
            DataTagKind::ReqLimit => "req_limit"@,
            DataTagKind::Lowpass => "lowpass"@,
            DataTagKind::BadChs => "bad_chs"@,
            DataTagKind::ArtefRemoval => "artef_removal"@,
            DataTagKind::CoordTrans => "coord_trans"@,
            DataTagKind::Highpass => "highpass"@,
            DataTagKind::ChCalsVec => "ch_cals_vec"@,
            DataTagKind::HpiBadChs => "hpi_bad_chs"@,
            DataTagKind::HpiCorrCoeff => "hpi_corr_coeff"@,
            DataTagKind::EventComment => "event_comment"@,
            DataTagKind::NoSamples => "no_samples"@,
            DataTagKind::FirstTime => "first_time"@,
            DataTagKind::SubaveSize => "subave_size"@,
            DataTagKind::SubaveFirst => "subave_first"@,
            DataTagKind::Name => "name"@,
            DataTagKind::DigString => "dig_string"@,
            DataTagKind::LineFreq => "line_freq"@,
            DataTagKind::HpiCoilFreq => "hpi_coil_freq"@,
            DataTagKind::SignalChannel => "signal_channel"@,
            DataTagKind::HpiCoilMoments => "hpi_coil_moments"@,
            DataTagKind::HpiFitGoodness => "hpi_fit_goodness"@,
            DataTagKind::HpiFitAccept => "hpi_fit_accept"@,
            DataTagKind::HpiFitGoodLimit => "hpi_fit_good_limit"@,
            DataTagKind::HpiFitDistLimit => "hpi_fit_dist_limit"@,
            DataTagKind::HpiCoilNo => "hpi_coil_no"@,
            DataTagKind::HpiCoilsUsed => "hpi_coils_used"@,
            DataTagKind::HpiDigitizationOrder => "hpi_digitization_order"@,
            DataTagKind::ChScanNo => "ch_scan_no"@,
            DataTagKind::ChLogicalNo => "ch_logical_no"@,
            DataTagKind::ChKind => "ch_kind"@,
            DataTagKind::ChRange => "ch_range"@,
            DataTagKind::ChCal => "ch_cal"@,
            DataTagKind::ChPos => "ch_pos"@,
            DataTagKind::ChUnit => "ch_unit"@,
            DataTagKind::ChUnitMul => "ch_unit_mul"@,
            DataTagKind::ChDacqName => "ch_dacq_name"@,
            DataTagKind::SssFrame => "sss_frame"@,
            DataTagKind::SssJob => "sss_job"@,
            DataTagKind::SssOrigin => "sss_origin"@,
            DataTagKind::SssOrdIn => "sss_ord_in"@,
            DataTagKind::SssOrdOut => "sss_ord_out"@,
            DataTagKind::SssNmag => "sss_nmag"@,
            DataTagKind::SssComponents => "sss_components"@,
            DataTagKind::SssCalChans => "sss_cal_chans"@,
            DataTagKind::SssCalCorrs => "sss_cal_corrs"@,
            DataTagKind::SssStCorr => "sss_st_corr"@,
            DataTagKind::SssBaseIn => "sss_base_in"@,
            DataTagKind::SssBaseOut => "sss_base_out"@,
            DataTagKind::SssBaseVirt => "sss_base_virt"@,
            DataTagKind::SssNorm => "sss_norm"@,
            DataTagKind::SssIterate => "sss_iterate"@,
            DataTagKind::SssNfree => "sss_nfree"@,
            DataTagKind::SssStLength => "sss_st_length"@,
            DataTagKind::GantryType => "gantry_type"@,
            DataTagKind::GantryModel => "gantry_model"@,
            DataTagKind::GantryAngle => "gantry_angle"@,
            DataTagKind::SssOperator => "sss_operator"@,
            DataTagKind::SssPsinv => "sss_psinv"@,
            DataTagKind::SssCtc => "sss_ctc"@,
            DataTagKind::DataBuffer => "data_buffer"@,
            DataTagKind::DataSkip => "data_skip"@,
            DataTagKind::Epoch => "epoch"@,
            DataTagKind::DataSkipSamp => "data_skip_samp"@,
            DataTagKind::TimeStamp => "time_stamp"@,
            DataTagKind::ChCoilType => "ch_coil_type"@,
            DataTagKind::ChCoordFrame => "ch_coord_frame"@,
            DataTagKind::SubjId => "subj_id"@,
            DataTagKind::SubjFirstName => "subj_first_name"@,
            DataTagKind::SubjMiddleName => "subj_middle_name"@,
            DataTagKind::SubjLastName => "subj_last_name"@,
            DataTagKind::SubjBirthDay => "subj_birth_day"@,
            DataTagKind::SubjSex => "subj_sex"@,
            DataTagKind::SubjHand => "subj_hand"@,
            DataTagKind::SubjWeight => "subj_weight"@,
            DataTagKind::SubjHeight => "subj_height"@,
            DataTagKind::SubjComment => "subj_comment"@,
            DataTagKind::SubjHisId => "subj_his_id"@,
            DataTagKind::ProjId => "proj_id"@,
            DataTagKind::ProjName => "proj_name"@,
            DataTagKind::ProjAim => "proj_aim"@,
            DataTagKind::ProjPersons => "proj_persons"@,
            DataTagKind::ProjComment => "proj_comment"@,
            DataTagKind::EventChannels => "event_channels"@,
            DataTagKind::EventList => "event_list"@,
            DataTagKind::EventChannel => "event_channel"@,
            DataTagKind::EventBits => "event_bits"@,
            DataTagKind::SquidBias => "squid_bias"@,
            DataTagKind::SquidOffset => "squid_offset"@,
            DataTagKind::SquidGate => "squid_gate"@,
            DataTagKind::DecouplerMatrix => "decoupler_matrix"@,
            DataTagKind::CtmOpenAmps => "ctm_open_amps"@,
            DataTagKind::CtmOpenPhase => "ctm_open_phase"@,
            DataTagKind::CtmClosAmps => "ctm_clos_amps"@,
            DataTagKind::CtmClosPhase => "ctm_clos_phase"@,
            DataTagKind::CtmClosDote => "ctm_clos_dote"@,
            DataTagKind::CtmOpenDote => "ctm_open_dote"@,
            DataTagKind::CtmExciFreq => "ctm_exci_freq"@,
            DataTagKind::RefPath => "ref_path"@,
            DataTagKind::VolumeType => "volume_type"@,
            DataTagKind::MriSourceFormat => "mri_source_format"@,
            DataTagKind::MriPixelEncoding => "mri_pixel_encoding"@,
            DataTagKind::MriPixelDataOffset => "mri_pixel_data_offset"@,
            DataTagKind::MriPixelScale => "mri_pixel_scale"@,
            DataTagKind::MriPixelData => "mri_pixel_data"@,
            DataTagKind::MriPixelOverlayEncoding => "mri_pixel_overlay_encoding"@,
            DataTagKind::MriPixelOverlayData => "mri_pixel_overlay_data"@,
            DataTagKind::MriBoundingBox => "mri_bounding_box"@,
            DataTagKind::MriWidth => "mri_width"@,
            DataTagKind::MriWidthM => "mri_width_m"@,
            DataTagKind::MriHeight => "mri_height"@,
            DataTagKind::MriHeightM => "mri_height_m"@,
            DataTagKind::MriDepth => "mri_depth"@,
            DataTagKind::MriDepthM => "mri_depth_m"@,
            DataTagKind::MriThickness => "mri_thickness"@,
            DataTagKind::MriSceneAim => "mri_scene_aim"@,
            DataTagKind::MriCalibrationScale => "mri_calibration_scale"@,
            DataTagKind::MriCalibrationOffset => "mri_calibration_offset"@,
            DataTagKind::MriOrigSourcePath => "mri_orig_source_path"@,
            DataTagKind::MriOrigSourceFormat => "mri_orig_source_format"@,
            DataTagKind::MriOrigPixelEncoding => "mri_orig_pixel_encoding"@,
            DataTagKind::MriOrigPixelDataOffset => "mri_orig_pixel_data_offset"@,
            DataTagKind::MriTime => "mri_time"@,
            DataTagKind::MriVoxelData => "mri_voxel_data"@,
            DataTagKind::MriVoxelEncoding => "mri_voxel_encoding"@,
            DataTagKind::VoxelNchannels => "voxel_nchannels"@,
            DataTagKind::MriDiffusionWeight => "mri_diffusion_weight"@,
            DataTagKind::MriDiffusionParam => "mri_diffusion_param"@,
            DataTagKind::MriMrilabSetup => "mri_mrilab_setup"@,
            DataTagKind::MriSegRegionId => "mri_seg_region_id"@,
            DataTagKind::ConductorModelKind => "conductor_model_kind"@,
            DataTagKind::SphereOrigin => "sphere_origin"@,
            DataTagKind::SphereCoordFrame => "sphere_coord_frame"@,
            DataTagKind::SphereLayers => "sphere_layers"@,
            DataTagKind::BemSurfId => "bem_surf_id"@,
            DataTagKind::BemSurfName => "bem_surf_name"@,
            DataTagKind::BemSurfNnode => "bem_surf_nnode"@,
            DataTagKind::BemSurfNtri => "bem_surf_ntri"@,
            DataTagKind::BemSurfNodes => "bem_surf_nodes"@,
            DataTagKind::BemSurfTriangles => "bem_surf_triangles"@,
            DataTagKind::BemSurfNormals => "bem_surf_normals"@,
            DataTagKind::BemSurfCurvs => "bem_surf_curvs"@,
            DataTagKind::BemSurfCurvValues => "bem_surf_curv_values"@,
            DataTagKind::BemPotSolution => "bem_pot_solution"@,
            DataTagKind::BemApprox => "bem_approx"@,
            DataTagKind::BemCoordFrame => "bem_coord_frame"@,
            DataTagKind::BemSigma => "bem_sigma"@,
            DataTagKind::SourceDipole => "source_dipole"@,
            DataTagKind::BeamformerInstructions => "beamformer_instructions"@,
            DataTagKind::XfitLeadProducts => "xfit_lead_products"@,
            DataTagKind::XfitMapProducts => "xfit_map_products"@,
            DataTagKind::XfitGradMapProducts => "xfit_grad_map_products"@,
            DataTagKind::XfitVolIntegration => "xfit_vol_integration"@,
            DataTagKind::XfitIntegrationRadius => "xfit_integration_radius"@,
            DataTagKind::XfitConductorModelName => "xfit_conductor_model_name"@,
            DataTagKind::XfitConductorModelTransName => "xfit_conductor_model_trans_name"@,
            DataTagKind::XfitContSurfType => "xfit_cont_surf_type"@,
            DataTagKind::ProjItemKind => "proj_item_kind"@,
            DataTagKind::ProjItemTime => "proj_item_time"@,
            DataTagKind::ProjItemIgnChs => "proj_item_ign_chs"@,
            DataTagKind::ProjItemNvec => "proj_item_nvec"@,
            DataTagKind::ProjItemVectors => "proj_item_vectors"@,
            DataTagKind::ProjItemDefinition => "proj_item_definition"@,
            DataTagKind::ProjItemChNameList => "proj_item_ch_name_list"@,
            DataTagKind::XplotterLayout => "xplotter_layout"@,
            DataTagKind::VolId => "vol_id"@,
            DataTagKind::VolName => "vol_name"@,
            DataTagKind::VolOwnerId => "vol_owner_id"@,
            DataTagKind::VolOwnerName => "vol_owner_name"@,
            DataTagKind::VolOwnerRealName => "vol_owner_real_name"@,
            DataTagKind::VolType => "vol_type"@,
            DataTagKind::VolHost => "vol_host"@,
            DataTagKind::VolRealRoot => "vol_real_root"@,
            DataTagKind::VolSymbolicRoot => "vol_symbolic_root"@,
            DataTagKind::VolMountPoint => "vol_mount_point"@,
            DataTagKind::VolBlocks => "vol_blocks"@,
            DataTagKind::VolFreeBlocks => "vol_free_blocks"@,
            DataTagKind::VolAvailBlocks => "vol_avail_blocks"@,
            DataTagKind::VolBlockSize => "vol_block_size"@,
            DataTagKind::VolDirectory => "vol_directory"@,
            DataTagKind::MemDataBuffer => "mem_data_buffer"@,
        }
    }

    /// The name of this kind.
    pub fn name(&self) -> (r: &'static str)
        ensures
            r@ == self.spec_name(),
    {
        match self {
            DataTagKind::FileId => "file_id",
            DataTagKind::DirPointer => "dir_pointer",
            DataTagKind::Dir => "dir",
            DataTagKind::FreeList => "free_list",
            DataTagKind::FreeBlock => "free_block",
            DataTagKind::Nop => "nop",
            DataTagKind::ParentFileId => "parent_file_id",
            DataTagKind::Creator => "creator",
            DataTagKind::Modifier => "modifier",
            DataTagKind::RefRole => "ref_role",
            DataTagKind::RefFileId => "ref_file_id",
            DataTagKind::RefFileNum => "ref_file_num",
            DataTagKind::RefFileName => "ref_file_name",
            DataTagKind::RefBlockId => "ref_block_id",
            DataTagKind::DacqPars => "dacq_pars",
            DataTagKind::DacqStim => "dacq_stim",
            DataTagKind::DeviceType => "device_type",
            DataTagKind::DeviceModel => "device_model",
            DataTagKind::DeviceSerial => "device_serial",
            DataTagKind::DeviceSite => "device_site",
            DataTagKind::HeLevelRaw => "he_level_raw",
            DataTagKind::HeliumLevel => "helium_level",
            DataTagKind::OrigFileGuid => "orig_file_guid",
            DataTagKind::UtcOffset => "utc_offset",
            DataTagKind::Nchan => "nchan",
            DataTagKind::Sfreq => "sfreq",
            DataTagKind::DataPack => "data_pack",
            DataTagKind::ChInfo => "ch_info",
            DataTagKind::MeasDate => "meas_date",
            DataTagKind::Subject => "subject",
            DataTagKind::Description => "description",
            DataTagKind::Nave => "nave",
            DataTagKind::FirstSample => "first_sample",
            DataTagKind::LastSample => "last_sample",
            DataTagKind::AspectKind => "aspect_kind",
            DataTagKind::RefEvent => "ref_event",
            DataTagKind::Experimenter => "experimenter",
            DataTagKind::DigPoint => "dig_point",
            DataTagKind::ChPosVec => "ch_pos_vec",
            DataTagKind::HpiSlopes => "hpi_slopes",
            DataTagKind::HpiNcoil => "hpi_ncoil",
            DataTagKind::ReqEvent => "req_event",
            DataTagKind::ReqLimit => "req_limit",
            DataTagKind::Lowpass => "lowpass",
            DataTagKind::BadChs => "bad_chs",
            DataTagKind::ArtefRemoval => "artef_removal",
            DataTagKind::CoordTrans => "coord_trans",
            DataTagKind::Highpass => "highpass",
            DataTagKind::ChCalsVec => "ch_cals_vec",
            DataTagKind::HpiBadChs => "hpi_bad_chs",
            DataTagKind::HpiCorrCoeff => "hpi_corr_coeff",
            DataTagKind::EventComment => "event_comment",
            DataTagKind::NoSamples => "no_samples",
            DataTagKind::FirstTime => "first_time",
            DataTagKind::SubaveSize => "subave_size",
            DataTagKind::SubaveFirst => "subave_first",
            DataTagKind::Name => "name",
            DataTagKind::DigString => "dig_string",
            DataTagKind::LineFreq => "line_freq",
            DataTagKind::HpiCoilFreq => "hpi_coil_freq",
            DataTagKind::SignalChannel => "signal_channel",
            DataTagKind::HpiCoilMoments => "hpi_coil_moments",
            DataTagKind::HpiFitGoodness => "hpi_fit_goodness",
            DataTagKind::HpiFitAccept => "hpi_fit_accept",
            DataTagKind::HpiFitGoodLimit => "hpi_fit_good_limit",
            DataTagKind::HpiFitDistLimit => "hpi_fit_dist_limit",
            DataTagKind::HpiCoilNo => "hpi_coil_no",
            DataTagKind::HpiCoilsUsed => "hpi_coils_used",
            DataTagKind::HpiDigitizationOrder => "hpi_digitization_order",
            DataTagKind::ChScanNo => "ch_scan_no",
            DataTagKind::ChLogicalNo => "ch_logical_no",
            DataTagKind::ChKind => "ch_kind",
            DataTagKind::ChRange => "ch_range",
            DataTagKind::ChCal => "ch_cal",
            DataTagKind::ChPos => "ch_pos",
            DataTagKind::ChUnit => "ch_unit",
            DataTagKind::ChUnitMul => "ch_unit_mul",
            DataTagKind::ChDacqName => "ch_dacq_name",
            DataTagKind::SssFrame => "sss_frame",
            DataTagKind::SssJob => "sss_job",
            DataTagKind::SssOrigin => "sss_origin",
            DataTagKind::SssOrdIn => "sss_ord_in",
            DataTagKind::SssOrdOut => "sss_ord_out",
            DataTagKind::SssNmag => "sss_nmag",
            DataTagKind::SssComponents => "sss_components",
            DataTagKind::SssCalChans => "sss_cal_chans",
            DataTagKind::SssCalCorrs => "sss_cal_corrs",
            DataTagKind::SssStCorr => "sss_st_corr",
            DataTagKind::SssBaseIn => "sss_base_in",
            DataTagKind::SssBaseOut => "sss_base_out",
            DataTagKind::SssBaseVirt => "sss_base_virt",
            DataTagKind::SssNorm => "sss_norm",
            DataTagKind::SssIterate => "sss_iterate",
            DataTagKind::SssNfree => "sss_nfree",
            DataTagKind::SssStLength => "sss_st_length",
            DataTagKind::GantryType => "gantry_type",
            DataTagKind::GantryModel => "gantry_model",
            DataTagKind::GantryAngle => "gantry_angle",
            DataTagKind::SssOperator => "sss_operator",
            DataTagKind::SssPsinv => "sss_psinv",
            DataTagKind::SssCtc => "sss_ctc",
            DataTagKind::DataBuffer => "data_buffer",
            DataTagKind::DataSkip => "data_skip",
            DataTagKind::Epoch => "epoch",
            DataTagKind::DataSkipSamp => "data_skip_samp",
            DataTagKind::TimeStamp => "time_stamp",
            DataTagKind::ChCoilType => "ch_coil_type",
            DataTagKind::ChCoordFrame => "ch_coord_frame",
            DataTagKind::SubjId => "subj_id",
            DataTagKind::SubjFirstName => "subj_first_name",
            DataTagKind::SubjMiddleName => "subj_middle_name",
            DataTagKind::SubjLastName => "subj_last_name",
            DataTagKind::SubjBirthDay => "subj_birth_day",
            DataTagKind::SubjSex => "subj_sex",
            DataTagKind::SubjHand => "subj_hand",
            DataTagKind::SubjWeight => "subj_weight",
            DataTagKind::SubjHeight => "subj_height",
            DataTagKind::SubjComment => "subj_comment",
            DataTagKind::SubjHisId => "subj_his_id",
            DataTagKind::ProjId => "proj_id",
            DataTagKind::ProjName => "proj_name",
            DataTagKind::ProjAim => "proj_aim",
            DataTagKind::ProjPersons => "proj_persons",
            DataTagKind::ProjComment => "proj_comment",
            DataTagKind::EventChannels => "event_channels",
            DataTagKind::EventList => "event_list",
            DataTagKind::EventChannel => "event_channel",
            DataTagKind::EventBits => "event_bits",
            DataTagKind::SquidBias => "squid_bias",
            DataTagKind::SquidOffset => "squid_offset",
            DataTagKind::SquidGate => "squid_gate",
            DataTagKind::DecouplerMatrix => "decoupler_matrix",
            DataTagKind::CtmOpenAmps => "ctm_open_amps",
            DataTagKind::CtmOpenPhase => "ctm_open_phase",
            DataTagKind::CtmClosAmps => "ctm_clos_amps",
            DataTagKind::CtmClosPhase => "ctm_clos_phase",
            DataTagKind::CtmClosDote => "ctm_clos_dote",
            DataTagKind::CtmOpenDote => "ctm_open_dote",
            DataTagKind::CtmExciFreq => "ctm_exci_freq",
            DataTagKind::RefPath => "ref_path",
            DataTagKind::VolumeType => "volume_type",
            DataTagKind::MriSourceFormat => "mri_source_format",
            DataTagKind::MriPixelEncoding => "mri_pixel_encoding",
            DataTagKind::MriPixelDataOffset => "mri_pixel_data_offset",
            DataTagKind::MriPixelScale => "mri_pixel_scale",
            DataTagKind::MriPixelData => "mri_pixel_data",
            DataTagKind::MriPixelOverlayEncoding => "mri_pixel_overlay_encoding",
            DataTagKind::MriPixelOverlayData => "mri_pixel_overlay_data",
            DataTagKind::MriBoundingBox => "mri_bounding_box",
            DataTagKind::MriWidth => "mri_width",
            DataTagKind::MriWidthM => "mri_width_m",
            DataTagKind::MriHeight => "mri_height",
            DataTagKind::MriHeightM => "mri_height_m",
            DataTagKind::MriDepth => "mri_depth",
            DataTagKind::MriDepthM => "mri_depth_m",
            DataTagKind::MriThickness => "mri_thickness",
            DataTagKind::MriSceneAim => "mri_scene_aim",
            DataTagKind::MriCalibrationScale => "mri_calibration_scale",
            DataTagKind::MriCalibrationOffset => "mri_calibration_offset",
            DataTagKind::MriOrigSourcePath => "mri_orig_source_path",
            DataTagKind::MriOrigSourceFormat => "mri_orig_source_format",
            DataTagKind::MriOrigPixelEncoding => "mri_orig_pixel_encoding",
            DataTagKind::MriOrigPixelDataOffset => "mri_orig_pixel_data_offset",
            DataTagKind::MriTime => "mri_time",
            DataTagKind::MriVoxelData => "mri_voxel_data",
            DataTagKind::MriVoxelEncoding => "mri_voxel_encoding",
            DataTagKind::VoxelNchannels => "voxel_nchannels",
            DataTagKind::MriDiffusionWeight => "mri_diffusion_weight",
            DataTagKind::MriDiffusionParam => "mri_diffusion_param",
            DataTagKind::MriMrilabSetup => "mri_mrilab_setup",
            DataTagKind::MriSegRegionId => "mri_seg_region_id",
            DataTagKind::ConductorModelKind => "conductor_model_kind",
            DataTagKind::SphereOrigin => "sphere_origin",
            DataTagKind::SphereCoordFrame => "sphere_coord_frame",
            DataTagKind::SphereLayers => "sphere_layers",
            DataTagKind::BemSurfId => "bem_surf_id",
            DataTagKind::BemSurfName => "bem_surf_name",
            DataTagKind::BemSurfNnode => "bem_surf_nnode",
            DataTagKind::BemSurfNtri => "bem_surf_ntri",
            DataTagKind::BemSurfNodes => "bem_surf_nodes",
            DataTagKind::BemSurfTriangles => "bem_surf_triangles",
            DataTagKind::BemSurfNormals => "bem_surf_normals",
            DataTagKind::BemSurfCurvs => "bem_surf_curvs",
            DataTagKind::BemSurfCurvValues => "bem_surf_curv_values",
            DataTagKind::BemPotSolution => "bem_pot_solution",
            DataTagKind::BemApprox => "bem_approx",
            DataTagKind::BemCoordFrame => "bem_coord_frame",
            DataTagKind::BemSigma => "bem_sigma",
            DataTagKind::SourceDipole => "source_dipole",
            DataTagKind::BeamformerInstructions => "beamformer_instructions",
            DataTagKind::XfitLeadProducts => "xfit_lead_products",
            DataTagKind::XfitMapProducts => "xfit_map_products",
            DataTagKind::XfitGradMapProducts => "xfit_grad_map_products",
            DataTagKind::XfitVolIntegration => "xfit_vol_integration",
            DataTagKind::XfitIntegrationRadius => "xfit_integration_radius",
            DataTagKind::XfitConductorModelName => "xfit_conductor_model_name",
            DataTagKind::XfitConductorModelTransName => "xfit_conductor_model_trans_name",
            DataTagKind::XfitContSurfType => "xfit_cont_surf_type",
            DataTagKind::ProjItemKind => "proj_item_kind",
            DataTagKind::ProjItemTime => "proj_item_time",
            DataTagKind::ProjItemIgnChs => "proj_item_ign_chs",
            DataTagKind::ProjItemNvec => "proj_item_nvec",
            DataTagKind::ProjItemVectors => "proj_item_vectors",
            DataTagKind::ProjItemDefinition => "proj_item_definition",
            DataTagKind::ProjItemChNameList => "proj_item_ch_name_list",
            DataTagKind::XplotterLayout => "xplotter_layout",
            DataTagKind::VolId => "vol_id",
            DataTagKind::VolName => "vol_name",
            DataTagKind::VolOwnerId => "vol_owner_id",
            DataTagKind::VolOwnerName => "vol_owner_name",
            DataTagKind::VolOwnerRealName => "vol_owner_real_name",
            DataTagKind::VolType => "vol_type",
            DataTagKind::VolHost => "vol_host",
            DataTagKind::VolRealRoot => "vol_real_root",
            DataTagKind::VolSymbolicRoot => "vol_symbolic_root",
            DataTagKind::VolMountPoint => "vol_mount_point",
            DataTagKind::VolBlocks => "vol_blocks",
            DataTagKind::VolFreeBlocks => "vol_free_blocks",
            DataTagKind::VolAvailBlocks => "vol_avail_blocks",
            DataTagKind::VolBlockSize => "vol_block_size",
            DataTagKind::VolDirectory => "vol_directory",
            DataTagKind::MemDataBuffer => "mem_data_buffer",
        }
    }

    /// The code of this kind.
    pub fn code(&self) -> (c: i32)
        ensures
            c == self.spec_code(),
    {
        match self {
            DataTagKind::FileId => 100,
            DataTagKind::DirPointer => 101,
            DataTagKind::Dir => 102,
            DataTagKind::FreeList => 106,
            DataTagKind::FreeBlock => 107,
            DataTagKind::Nop => 108,
            DataTagKind::ParentFileId => 109,
            DataTagKind::Creator => 113,
            DataTagKind::Modifier => 114,
            DataTagKind::RefRole => 115,
            DataTagKind::RefFileId => 116,
            DataTagKind::RefFileNum => 117,
            DataTagKind::RefFileName => 118,
            DataTagKind::RefBlockId => 120,
            DataTagKind::DacqPars => 150,
            DataTagKind::DacqStim => 151,
            DataTagKind::DeviceType => 152,
            DataTagKind::DeviceModel => 153,
            DataTagKind::DeviceSerial => 154,
            DataTagKind::DeviceSite => 155,
            DataTagKind::HeLevelRaw => 156,
            DataTagKind::HeliumLevel => 157,
            DataTagKind::OrigFileGuid => 158,
            DataTagKind::UtcOffset => 159,
            DataTagKind::Nchan => 200,
            DataTagKind::Sfreq => 201,
            DataTagKind::DataPack => 202,
            DataTagKind::ChInfo => 203,
            DataTagKind::MeasDate => 204,
            DataTagKind::Subject => 205,
            DataTagKind::Description => 206,
            DataTagKind::Nave => 207,
            DataTagKind::FirstSample => 208,
            DataTagKind::LastSample => 209,
            DataTagKind::AspectKind => 210,
            DataTagKind::RefEvent => 211,
            DataTagKind::Experimenter => 212,
            DataTagKind::DigPoint => 213,
            DataTagKind::ChPosVec => 214,
            DataTagKind::HpiSlopes => 215,
            DataTagKind::HpiNcoil => 216,
            DataTagKind::ReqEvent => 217,
            DataTagKind::ReqLimit => 218,
            DataTagKind::Lowpass => 219,
            DataTagKind::BadChs => 220,
            DataTagKind::ArtefRemoval => 221,
            DataTagKind::CoordTrans => 222,
            DataTagKind::Highpass => 223,
            DataTagKind::ChCalsVec => 224,
            DataTagKind::HpiBadChs => 225,
            DataTagKind::HpiCorrCoeff => 226,
            DataTagKind::EventComment => 227,
            DataTagKind::NoSamples => 228,
            DataTagKind::FirstTime => 229,
            DataTagKind::SubaveSize => 230,
            DataTagKind::SubaveFirst => 231,
            DataTagKind::Name => 233,
            DataTagKind::DigString => 234,
            DataTagKind::LineFreq => 235,
            DataTagKind::HpiCoilFreq => 236,
            DataTagKind::SignalChannel => 237,
            DataTagKind::HpiCoilMoments => 240,
            DataTagKind::HpiFitGoodness => 241,
            DataTagKind::HpiFitAccept => 242,
            DataTagKind::HpiFitGoodLimit => 243,
            DataTagKind::HpiFitDistLimit => 244,
            DataTagKind::HpiCoilNo => 245,
            DataTagKind::HpiCoilsUsed => 246,
            DataTagKind::HpiDigitizationOrder => 247,
            DataTagKind::ChScanNo => 250,
            DataTagKind::ChLogicalNo => 251,
            DataTagKind::ChKind => 252,
            DataTagKind::ChRange => 253,
            DataTagKind::ChCal => 254,
            DataTagKind::ChPos => 255,
            DataTagKind::ChUnit => 256,
            DataTagKind::ChUnitMul => 257,
            DataTagKind::ChDacqName => 258,
            DataTagKind::SssFrame => 263,
            DataTagKind::SssJob => 264,
            DataTagKind::SssOrigin => 265,
            DataTagKind::SssOrdIn => 266,
            DataTagKind::SssOrdOut => 267,
            DataTagKind::SssNmag => 268,
            DataTagKind::SssComponents => 269,
            DataTagKind::SssCalChans => 270,
            DataTagKind::SssCalCorrs => 271,
            DataTagKind::SssStCorr => 272,
            DataTagKind::SssBaseIn => 273,
            DataTagKind::SssBaseOut => 274,
            DataTagKind::SssBaseVirt => 275,
            DataTagKind::SssNorm => 276,
            DataTagKind::SssIterate => 277,
            DataTagKind::SssNfree => 278,
            DataTagKind::SssStLength => 279,
            DataTagKind::GantryType => 280,
            DataTagKind::GantryModel => 281,
            DataTagKind::GantryAngle => 282,
            DataTagKind::SssOperator => 290,
            DataTagKind::SssPsinv => 291,
            DataTagKind::SssCtc => 292,
            DataTagKind::DataBuffer => 300,
            DataTagKind::DataSkip => 301,
            DataTagKind::Epoch => 302,
            DataTagKind::DataSkipSamp => 303,
            DataTagKind::TimeStamp => 305,
            DataTagKind::ChCoilType => 350,
            DataTagKind::ChCoordFrame => 351,
            DataTagKind::SubjId => 400,
            DataTagKind::SubjFirstName => 401,
            DataTagKind::SubjMiddleName => 402,
            DataTagKind::SubjLastName => 403,
            DataTagKind::SubjBirthDay => 404,
            DataTagKind::SubjSex => 405,
            DataTagKind::SubjHand => 406,
            DataTagKind::SubjWeight => 407,
            DataTagKind::SubjHeight => 408,
            DataTagKind::SubjComment => 409,
            DataTagKind::SubjHisId => 410,
            DataTagKind::ProjId => 500,
            DataTagKind::ProjName => 501,
            DataTagKind::ProjAim => 502,
            DataTagKind::ProjPersons => 503,
            DataTagKind::ProjComment => 504,
            DataTagKind::EventChannels => 600,
            DataTagKind::EventList => 601,
            DataTagKind::EventChannel => 602,
            DataTagKind::EventBits => 603,
            DataTagKind::SquidBias => 701,
            DataTagKind::SquidOffset => 702,
            DataTagKind::SquidGate => 703,
            DataTagKind::DecouplerMatrix => 800,
            DataTagKind::CtmOpenAmps => 801,
            DataTagKind::CtmOpenPhase => 802,
            DataTagKind::CtmClosAmps => 803,
            DataTagKind::CtmClosPhase => 804,
            DataTagKind::CtmClosDote => 805,
            DataTagKind::CtmOpenDote => 806,
            DataTagKind::CtmExciFreq => 807,
            DataTagKind::RefPath => 1101,
            DataTagKind::VolumeType => 2001,
            DataTagKind::MriSourceFormat => 2002,
            DataTagKind::MriPixelEncoding => 2003,
            DataTagKind::MriPixelDataOffset => 2004,
            DataTagKind::MriPixelScale => 2005,
            DataTagKind::MriPixelData => 2006,
            DataTagKind::MriPixelOverlayEncoding => 2007,
            DataTagKind::MriPixelOverlayData => 2008,
            DataTagKind::MriBoundingBox => 2009,
            DataTagKind::MriWidth => 2010,
            DataTagKind::MriWidthM => 2011,
            DataTagKind::MriHeight => 2012,
            DataTagKind::MriHeightM => 2013,
            DataTagKind::MriDepth => 2014,
            DataTagKind::MriDepthM => 2015,
            DataTagKind::MriThickness => 2016,
            DataTagKind::MriSceneAim => 2017,
            DataTagKind::MriCalibrationScale => 2018,
            DataTagKind::MriCalibrationOffset => 2019,
            DataTagKind::MriOrigSourcePath => 2020,
            DataTagKind::MriOrigSourceFormat => 2021,
            DataTagKind::MriOrigPixelEncoding => 2022,
            DataTagKind::MriOrigPixelDataOffset => 2023,
            DataTagKind::MriTime => 2024,
            DataTagKind::MriVoxelData => 2030,
            DataTagKind::MriVoxelEncoding => 2031,
            DataTagKind::VoxelNchannels => 2032,
            DataTagKind::MriDiffusionWeight => 2040,
            DataTagKind::MriDiffusionParam => 2041,
            DataTagKind::MriMrilabSetup => 2100,
            DataTagKind::MriSegRegionId => 2200,
            DataTagKind::ConductorModelKind => 3000,
            DataTagKind::SphereOrigin => 3001,
            DataTagKind::SphereCoordFrame => 3002,
            DataTagKind::SphereLayers => 3003,
            DataTagKind::BemSurfId => 3101,
            DataTagKind::BemSurfName => 3102,
            DataTagKind::BemSurfNnode => 3103,
            DataTagKind::BemSurfNtri => 3104,
            DataTagKind::BemSurfNodes => 3105,
            DataTagKind::BemSurfTriangles => 3106,
            DataTagKind::BemSurfNormals => 3107,
            DataTagKind::BemSurfCurvs => 3108,
            DataTagKind::BemSurfCurvValues => 3109,
            DataTagKind::BemPotSolution => 3110,
            DataTagKind::BemApprox => 3111,
            DataTagKind::BemCoordFrame => 3112,
            DataTagKind::BemSigma => 3113,
            DataTagKind::SourceDipole => 3201,
            DataTagKind::BeamformerInstructions => 3300,
            DataTagKind::XfitLeadProducts => 3401,
            DataTagKind::XfitMapProducts => 3402,
            DataTagKind::XfitGradMapProducts => 3403,
            DataTagKind::XfitVolIntegration => 3404,
            DataTagKind::XfitIntegrationRadius => 3405,
            DataTagKind::XfitConductorModelName => 3406,
            DataTagKind::XfitConductorModelTransName => 3407,
            DataTagKind::XfitContSurfType => 3408,
            DataTagKind::ProjItemKind => 3411,
            DataTagKind::ProjItemTime => 3412,
            DataTagKind::ProjItemIgnChs => 3413,
            DataTagKind::ProjItemNvec => 3414,
            DataTagKind::ProjItemVectors => 3415,
            DataTagKind::ProjItemDefinition => 3416,
            DataTagKind::ProjItemChNameList => 3417,
            DataTagKind::XplotterLayout => 3501,
            DataTagKind::VolId => 4001,
            DataTagKind::VolName => 4002,
            DataTagKind::VolOwnerId => 4003,
            DataTagKind::VolOwnerName => 4004,
            DataTagKind::VolOwnerRealName => 4005,
            DataTagKind::VolType => 4006,
            DataTagKind::VolHost => 4007,
            DataTagKind::VolRealRoot => 4008,
            DataTagKind::VolSymbolicRoot => 4009,
            DataTagKind::VolMountPoint => 4010,
            DataTagKind::VolBlocks => 4011,
            DataTagKind::VolFreeBlocks => 4012,
            DataTagKind::VolAvailBlocks => 4013,
            DataTagKind::VolBlockSize => 4014,
            DataTagKind::VolDirectory => 4015,
            DataTagKind::MemDataBuffer => 10300,
        }
    }

    /// Looks a code up in the table of data tags.
    pub fn from_code(code: i32) -> (r: Result<DataTagKind, UnrecognizedCode>)
        ensures
            r == (match Self::of_code(code) {
                Some(k) => Ok::<DataTagKind, UnrecognizedCode>(k),
                None => Err(UnrecognizedCode { code }),
            }),
            r matches Ok(k) ==> k.spec_code() == code,
            r is Ok <==> Self::recognizes(code),
    {
        match Self::lookup(code) {
            Some(k) => {
                proof {
                    lemma_data_kind_of_code(k);
                }
                Ok(k)
            },
            None => Err(UnrecognizedCode { code }),
        }
    }

    fn lookup(code: i32) -> (r: Option<DataTagKind>)
        ensures
            r matches Some(k) ==> k.spec_code() == code,
            r is None ==> !Self::recognizes(code),
    {
        match code {
            100 => Some(DataTagKind::FileId),
            101 => Some(DataTagKind::DirPointer),
            102 => Some(DataTagKind::Dir),
            106 => Some(DataTagKind::FreeList),
            107 => Some(DataTagKind::FreeBlock),
            108 => Some(DataTagKind::Nop),
            109 => Some(DataTagKind::ParentFileId),
            113 => Some(DataTagKind::Creator),
            114 => Some(DataTagKind::Modifier),
            115 => Some(DataTagKind::RefRole),
            116 => Some(DataTagKind::RefFileId),
            117 => Some(DataTagKind::RefFileNum),
            118 => Some(DataTagKind::RefFileName),
            120 => Some(DataTagKind::RefBlockId),
            150 => Some(DataTagKind::DacqPars),
            151 => Some(DataTagKind::DacqStim),
            152 => Some(DataTagKind::DeviceType),
            153 => Some(DataTagKind::DeviceModel),
            154 => Some(DataTagKind::DeviceSerial),
            155 => Some(DataTagKind::DeviceSite),
            156 => Some(DataTagKind::HeLevelRaw),
            157 => Some(DataTagKind::HeliumLevel),
            158 => Some(DataTagKind::OrigFileGuid),
            159 => Some(DataTagKind::UtcOffset),
            200 => Some(DataTagKind::Nchan),
            201 => Some(DataTagKind::Sfreq),
            202 => Some(DataTagKind::DataPack),
            203 => Some(DataTagKind::ChInfo),
            204 => Some(DataTagKind::MeasDate),
            205 => Some(DataTagKind::Subject),
            206 => Some(DataTagKind::Description),
            207 => Some(DataTagKind::Nave),
            208 => Some(DataTagKind::FirstSample),
            209 => Some(DataTagKind::LastSample),
            210 => Some(DataTagKind::AspectKind),
            211 => Some(DataTagKind::RefEvent),
            212 => Some(DataTagKind::Experimenter),
            213 => Some(DataTagKind::DigPoint),
            214 => Some(DataTagKind::ChPosVec),
            215 => Some(DataTagKind::HpiSlopes),
            216 => Some(DataTagKind::HpiNcoil),
            217 => Some(DataTagKind::ReqEvent),
            218 => Some(DataTagKind::ReqLimit),
            219 => Some(DataTagKind::Lowpass),
            220 => Some(DataTagKind::BadChs),
            221 => Some(DataTagKind::ArtefRemoval),
            222 => Some(DataTagKind::CoordTrans),
            223 => Some(DataTagKind::Highpass),
            224 => Some(DataTagKind::ChCalsVec),
            225 => Some(DataTagKind::HpiBadChs),
            226 => Some(DataTagKind::HpiCorrCoeff),
            227 => Some(DataTagKind::EventComment),
            228 => Some(DataTagKind::NoSamples),
            229 => Some(DataTagKind::FirstTime),
            230 => Some(DataTagKind::SubaveSize),
            231 => Some(DataTagKind::SubaveFirst),
            233 => Some(DataTagKind::Name),
            234 => Some(DataTagKind::DigString),
            235 => Some(DataTagKind::LineFreq),
            236 => Some(DataTagKind::HpiCoilFreq),
            237 => Some(DataTagKind::SignalChannel),
            240 => Some(DataTagKind::HpiCoilMoments),
            241 => Some(DataTagKind::HpiFitGoodness),
            242 => Some(DataTagKind::HpiFitAccept),
            243 => Some(DataTagKind::HpiFitGoodLimit),
            244 => Some(DataTagKind::HpiFitDistLimit),
            245 => Some(DataTagKind::HpiCoilNo),
            246 => Some(DataTagKind::HpiCoilsUsed),
            247 => Some(DataTagKind::HpiDigitizationOrder),
            250 => Some(DataTagKind::ChScanNo),
            251 => Some(DataTagKind::ChLogicalNo),
            252 => Some(DataTagKind::ChKind),
            253 => Some(DataTagKind::ChRange),
            254 => Some(DataTagKind::ChCal),
            255 => Some(DataTagKind::ChPos),
            256 => Some(DataTagKind::ChUnit),
            257 => Some(DataTagKind::ChUnitMul),
            258 => Some(DataTagKind::ChDacqName),
            263 => Some(DataTagKind::SssFrame),
            264 => Some(DataTagKind::SssJob),
            265 => Some(DataTagKind::SssOrigin),
            266 => Some(DataTagKind::SssOrdIn),
            267 => Some(DataTagKind::SssOrdOut),
            268 => Some(DataTagKind::SssNmag),
            269 => Some(DataTagKind::SssComponents),
            270 => Some(DataTagKind::SssCalChans),
            271 => Some(DataTagKind::SssCalCorrs),
            272 => Some(DataTagKind::SssStCorr),
            273 => Some(DataTagKind::SssBaseIn),
            274 => Some(DataTagKind::SssBaseOut),
            275 => Some(DataTagKind::SssBaseVirt),
            276 => Some(DataTagKind::SssNorm),
            277 => Some(DataTagKind::SssIterate),
            278 => Some(DataTagKind::SssNfree),
            279 => Some(DataTagKind::SssStLength),
            280 => Some(DataTagKind::GantryType),
            281 => Some(DataTagKind::GantryModel),
            282 => Some(DataTagKind::GantryAngle),
            290 => Some(DataTagKind::SssOperator),
            291 => Some(DataTagKind::SssPsinv),
            292 => Some(DataTagKind::SssCtc),
            300 => Some(DataTagKind::DataBuffer),
            301 => Some(DataTagKind::DataSkip),
            302 => Some(DataTagKind::Epoch),
            303 => Some(DataTagKind::DataSkipSamp),
            305 => Some(DataTagKind::TimeStamp),
            350 => Some(DataTagKind::ChCoilType),
            351 => Some(DataTagKind::ChCoordFrame),
            400 => Some(DataTagKind::SubjId),
            401 => Some(DataTagKind::SubjFirstName),
            402 => Some(DataTagKind::SubjMiddleName),
            403 => Some(DataTagKind::SubjLastName),
            404 => Some(DataTagKind::SubjBirthDay),
            405 => Some(DataTagKind::SubjSex),
            406 => Some(DataTagKind::SubjHand),
            407 => Some(DataTagKind::SubjWeight),
            408 => Some(DataTagKind::SubjHeight),
            409 => Some(DataTagKind::SubjComment),
            410 => Some(DataTagKind::SubjHisId),
            500 => Some(DataTagKind::ProjId),
            501 => Some(DataTagKind::ProjName),
            502 => Some(DataTagKind::ProjAim),
            503 => Some(DataTagKind::ProjPersons),
            504 => Some(DataTagKind::ProjComment),
            600 => Some(DataTagKind::EventChannels),
            601 => Some(DataTagKind::EventList),
            602 => Some(DataTagKind::EventChannel),
            603 => Some(DataTagKind::EventBits),
            701 => Some(DataTagKind::SquidBias),
            702 => Some(DataTagKind::SquidOffset),
            703 => Some(DataTagKind::SquidGate),
            800 => Some(DataTagKind::DecouplerMatrix),
            801 => Some(DataTagKind::CtmOpenAmps),
            802 => Some(DataTagKind::CtmOpenPhase),
            803 => Some(DataTagKind::CtmClosAmps),
            804 => Some(DataTagKind::CtmClosPhase),
            805 => Some(DataTagKind::CtmClosDote),
            806 => Some(DataTagKind::CtmOpenDote),
            807 => Some(DataTagKind::CtmExciFreq),
            1101 => Some(DataTagKind::RefPath),
            2001 => Some(DataTagKind::VolumeType),
            2002 => Some(DataTagKind::MriSourceFormat),
            2003 => Some(DataTagKind::MriPixelEncoding),
            2004 => Some(DataTagKind::MriPixelDataOffset),
            2005 => Some(DataTagKind::MriPixelScale),
            2006 => Some(DataTagKind::MriPixelData),
            2007 => Some(DataTagKind::MriPixelOverlayEncoding),
            2008 => Some(DataTagKind::MriPixelOverlayData),
            2009 => Some(DataTagKind::MriBoundingBox),
            2010 => Some(DataTagKind::MriWidth),
            2011 => Some(DataTagKind::MriWidthM),
            2012 => Some(DataTagKind::MriHeight),
            2013 => Some(DataTagKind::MriHeightM),
            2014 => Some(DataTagKind::MriDepth),
            2015 => Some(DataTagKind::MriDepthM),
            2016 => Some(DataTagKind::MriThickness),
            2017 => Some(DataTagKind::MriSceneAim),
            2018 => Some(DataTagKind::MriCalibrationScale),
            2019 => Some(DataTagKind::MriCalibrationOffset),
            2020 => Some(DataTagKind::MriOrigSourcePath),
            2021 => Some(DataTagKind::MriOrigSourceFormat),
            2022 => Some(DataTagKind::MriOrigPixelEncoding),
            2023 => Some(DataTagKind::MriOrigPixelDataOffset),
            2024 => Some(DataTagKind::MriTime),
            2030 => Some(DataTagKind::MriVoxelData),
            2031 => Some(DataTagKind::MriVoxelEncoding),
            2032 => Some(DataTagKind::VoxelNchannels),
            2040 => Some(DataTagKind::MriDiffusionWeight),
            2041 => Some(DataTagKind::MriDiffusionParam),
            2100 => Some(DataTagKind::MriMrilabSetup),
            2200 => Some(DataTagKind::MriSegRegionId),
            3000 => Some(DataTagKind::ConductorModelKind),
            3001 => Some(DataTagKind::SphereOrigin),
            3002 => Some(DataTagKind::SphereCoordFrame),
            3003 => Some(DataTagKind::SphereLayers),
            3101 => Some(DataTagKind::BemSurfId),
            3102 => Some(DataTagKind::BemSurfName),
            3103 => Some(DataTagKind::BemSurfNnode),
            3104 => Some(DataTagKind::BemSurfNtri),
            3105 => Some(DataTagKind::BemSurfNodes),
            3106 => Some(DataTagKind::BemSurfTriangles),
            3107 => Some(DataTagKind::BemSurfNormals),
            3108 => Some(DataTagKind::BemSurfCurvs),
            3109 => Some(DataTagKind::BemSurfCurvValues),
            3110 => Some(DataTagKind::BemPotSolution),
            3111 => Some(DataTagKind::BemApprox),
            3112 => Some(DataTagKind::BemCoordFrame),
            3113 => Some(DataTagKind::BemSigma),
            3201 => Some(DataTagKind::SourceDipole),
            3300 => Some(DataTagKind::BeamformerInstructions),
            3401 => Some(DataTagKind::XfitLeadProducts),
            3402 => Some(DataTagKind::XfitMapProducts),
            3403 => Some(DataTagKind::XfitGradMapProducts),
            3404 => Some(DataTagKind::XfitVolIntegration),
            3405 => Some(DataTagKind::XfitIntegrationRadius),
            3406 => Some(DataTagKind::XfitConductorModelName),
            3407 => Some(DataTagKind::XfitConductorModelTransName),
            3408 => Some(DataTagKind::XfitContSurfType),
            3411 => Some(DataTagKind::ProjItemKind),
            3412 => Some(DataTagKind::ProjItemTime),
            3413 => Some(DataTagKind::ProjItemIgnChs),
            3414 => Some(DataTagKind::ProjItemNvec),
            3415 => Some(DataTagKind::ProjItemVectors),
            3416 => Some(DataTagKind::ProjItemDefinition),
            3417 => Some(DataTagKind::ProjItemChNameList),
            3501 => Some(DataTagKind::XplotterLayout),
            4001 => Some(DataTagKind::VolId),
            4002 => Some(DataTagKind::VolName),
            4003 => Some(DataTagKind::VolOwnerId),
            4004 => Some(DataTagKind::VolOwnerName),
            4005 => Some(DataTagKind::VolOwnerRealName),
            4006 => Some(DataTagKind::VolType),
            4007 => Some(DataTagKind::VolHost),
            4008 => Some(DataTagKind::VolRealRoot),
            4009 => Some(DataTagKind::VolSymbolicRoot),
            4010 => Some(DataTagKind::VolMountPoint),
            4011 => Some(DataTagKind::VolBlocks),
            4012 => Some(DataTagKind::VolFreeBlocks),
            4013 => Some(DataTagKind::VolAvailBlocks),
            4014 => Some(DataTagKind::VolBlockSize),
            4015 => Some(DataTagKind::VolDirectory),
            10300 => Some(DataTagKind::MemDataBuffer),
            _ => None,
        }
    }
}

impl Default for DataTagKind {
    fn default() -> (r: Self)
        ensures
            r == DataTagKind::FileId,
    {
        DataTagKind::FileId
    }
}

/// The kind of a structural tag: one that delimits or describes a block.
#[derive(Debug, PartialEq, Eq, Clone, Copy, Structural)]
pub enum BlockTagKind {
    BlockId,
    BlockStart,
    BlockEnd,
    ParentBlockId,
    BlockName,
    BlockVersion,
}

impl BlockTagKind {
    /// The code that a file writes for this kind.
    pub open spec fn spec_code(self) -> i32 {
        match self {
            BlockTagKind::BlockId => 103,
            BlockTagKind::BlockStart => 104,
            BlockTagKind::BlockEnd => 105,
            BlockTagKind::ParentBlockId => 110,
            BlockTagKind::BlockName => 111,
            BlockTagKind::BlockVersion => 112,
        }
    }

    /// Whether this is one of the six structural codes.
    pub open spec fn recognizes(code: i32) -> bool {
        exists|k: BlockTagKind| #[trigger] k.spec_code() == code
    }

    /// The structural kind with this code, if there is one.
    pub open spec fn of_code(code: i32) -> Option<BlockTagKind> {
        if Self::recognizes(code) {
            Some(choose|k: BlockTagKind| #[trigger] k.spec_code() == code)
        } else {
            None
        }
    }

    /// Looks a code up among the structural codes.
    pub fn from_code(code: i32) -> (r: Result<BlockTagKind, NotABlockTag>)
        ensures
            r == (match Self::of_code(code) {
                Some(k) => Ok::<BlockTagKind, NotABlockTag>(k),
                None => Err(NotABlockTag { code }),
            }),
            r matches Ok(k) ==> k.spec_code() == code,
            r is Ok <==> Self::recognizes(code),
    {
        let out = match code {
            103 => BlockTagKind::BlockId,
            104 => BlockTagKind::BlockStart,
            105 => BlockTagKind::BlockEnd,
            110 => BlockTagKind::ParentBlockId,
            111 => BlockTagKind::BlockName,
            112 => BlockTagKind::BlockVersion,
            _ => {
                return Err(NotABlockTag { code });
            },
        };
        proof {
            lemma_block_tag_kind_of_code(out);
        }
        Ok(out)
    }
}

/// What a block holds, as named by the integer that its start tag carries.
#[derive(Debug, PartialEq, Eq, Clone, Copy, Structural)]
pub enum BlockKind {
    Root,
    Meas,
    MeasInfo,
    RawData,
    ProcessedData,
    Evoked,
    Aspect,
    Subject,
    Isotrak,
    HpiMeas,
    HpiResult,
    HpiCoil,
    Project,
    ContinuousData,
    ChInfo,
    Void,
    Events,
    Index,
    DacqPars,
    Ref,
    IasRawData,
    IasAspect,
    HpiSubsystem,
    PhantomSubsystem,
    StatusSubsystem,
    DeviceInfo,
    HeliumInfo,
    ChannelInfo,
    StructuralData,
    VolumeData,
    VolumeSlice,
    Scenery,
    Scene,
    MriSeg,
    MriSegRegion,
    Sphere,
    Bem,
    BemSurf,
    ConductorModel,
    Ssp,
    SspItem,
    XfitAux,
    FiffCov,
    BadChannels,
    VolInfo,
    DataCorrection,
    ChannelsDecoupler,
    SssInfo,
    SssCalAdjust,
    SssStInfo,
    SssBases,
    SssOperator,
    CtMeas,
    SssExpansion,
    Ias,
    ProcessingHistory,
    ProcessingRecord,
    /// A block whose code has no name here.
    Code(i32),
}

impl BlockKind {
    /// The code that a file writes for this kind.
    pub open spec fn spec_code(self) -> i32 {
        match self {
            BlockKind::Root => 999,
            BlockKind::Meas => 100,
            BlockKind::MeasInfo => 101,
            BlockKind::RawData => 102,
            BlockKind::ProcessedData => 103,
            BlockKind::Evoked => 104,
            BlockKind::Aspect => 105,
            BlockKind::Subject => 106,
            BlockKind::Isotrak => 107,
            BlockKind::HpiMeas => 108,
            BlockKind::HpiResult => 109,
            BlockKind::HpiCoil => 110,
            BlockKind::Project => 111,
            BlockKind::ContinuousData => 112,
            BlockKind::ChInfo => 113,
            BlockKind::Void => 114,
            BlockKind::Events => 115,
            BlockKind::Index => 116,
            BlockKind::DacqPars => 117,
            BlockKind::Ref => 118,
            BlockKind::IasRawData => 119,
            BlockKind::IasAspect => 120,
            BlockKind::HpiSubsystem => 121,
            BlockKind::PhantomSubsystem => 122,
            BlockKind::StatusSubsystem => 123,
            BlockKind::DeviceInfo => 124,
            BlockKind::HeliumInfo => 125,
            BlockKind::ChannelInfo => 126,
            BlockKind::StructuralData => 200,
            BlockKind::VolumeData => 201,
            BlockKind::VolumeSlice => 202,
            BlockKind::Scenery => 203,
            BlockKind::Scene => 204,
            BlockKind::MriSeg => 205,
            BlockKind::MriSegRegion => 206,
            BlockKind::Sphere => 300,
            BlockKind::Bem => 310,
            BlockKind::BemSurf => 311,
            BlockKind::ConductorModel => 312,
            BlockKind::Ssp => 313,
            BlockKind::SspItem => 314,
            BlockKind::XfitAux => 315,
            BlockKind::FiffCov => 355,
            BlockKind::BadChannels => 359,
            BlockKind::VolInfo => 400,
            BlockKind::DataCorrection => 500,
            BlockKind::ChannelsDecoupler => 501,
            BlockKind::SssInfo => 502,
            BlockKind::SssCalAdjust => 503,
            BlockKind::SssStInfo => 504,
            BlockKind::SssBases => 505,
            BlockKind::SssOperator => 506,
            BlockKind::CtMeas => 507,
            BlockKind::SssExpansion => 508,
            BlockKind::Ias => 510,
            BlockKind::ProcessingHistory => 900,
            BlockKind::ProcessingRecord => 901,
            BlockKind::Code(c) => c,
        }
    }

    /// Whether some named block kind has this code.
    pub open spec fn names(code: i32) -> bool {
        exists|k: BlockKind| !(k is Code) && #[trigger] k.spec_code() == code
    }

    /// The block kind for this code: the named kind where there is one, and
    /// the bare code otherwise.
    pub open spec fn of_code(code: i32) -> BlockKind {
        if Self::names(code) {
            choose|k: BlockKind| !(k is Code) && #[trigger] k.spec_code() == code
        } else {
            BlockKind::Code(code)
        }
    }

    /// Names the block that a code stands for. Every code has a block kind.
    pub fn from_code(code: i32) -> (r: BlockKind)
        ensures
            r == Self::of_code(code),
            r.spec_code() == code,
            r is Code <==> !Self::names(code),
    {
        let out = match code {
            999 => BlockKind::Root,
            100 => BlockKind::Meas,
            101 => BlockKind::MeasInfo,
            102 => BlockKind::RawData,
            103 => BlockKind::ProcessedData,
            104 => BlockKind::Evoked,
            105 => BlockKind::Aspect,
            106 => BlockKind::Subject,
            107 => BlockKind::Isotrak,
            108 => BlockKind::HpiMeas,
            109 => BlockKind::HpiResult,
            110 => BlockKind::HpiCoil,
            111 => BlockKind::Project,
            112 => BlockKind::ContinuousData,
            113 => BlockKind::ChInfo,
            114 => BlockKind::Void,
            115 => BlockKind::Events,
            116 => BlockKind::Index,
            117 => BlockKind::DacqPars,
            118 => BlockKind::Ref,
            119 => BlockKind::IasRawData,
            120 => BlockKind::IasAspect,
            121 => BlockKind::HpiSubsystem,
            122 => BlockKind::PhantomSubsystem,
            123 => BlockKind::StatusSubsystem,
            124 => BlockKind::DeviceInfo,
            125 => BlockKind::HeliumInfo,
            126 => BlockKind::ChannelInfo,
            200 => BlockKind::StructuralData,
            201 => BlockKind::VolumeData,
            202 => BlockKind::VolumeSlice,
            203 => BlockKind::Scenery,
            204 => BlockKind::Scene,
            205 => BlockKind::MriSeg,
            206 => BlockKind::MriSegRegion,
            300 => BlockKind::Sphere,
            310 => BlockKind::Bem,
            311 => BlockKind::BemSurf,
            312 => BlockKind::ConductorModel,
            313 => BlockKind::Ssp,
            314 => BlockKind::SspItem,
            315 => BlockKind::XfitAux,
            355 => BlockKind::FiffCov,
            359 => BlockKind::BadChannels,
            400 => BlockKind::VolInfo,
            500 => BlockKind::DataCorrection,
            501 => BlockKind::ChannelsDecoupler,
            502 => BlockKind::SssInfo,
            503 => BlockKind::SssCalAdjust,
            504 => BlockKind::SssStInfo,
            505 => BlockKind::SssBases,
            506 => BlockKind::SssOperator,
            507 => BlockKind::CtMeas,
            508 => BlockKind::SssExpansion,
            510 => BlockKind::Ias,
            900 => BlockKind::ProcessingHistory,
            901 => BlockKind::ProcessingRecord,
            _ => {
                return BlockKind::Code(code);
            },
        };
        proof {
            lemma_block_kind_of_code(out);
        }
        out
    }
}

impl Default for BlockKind {
    fn default() -> (r: Self)
        ensures
            r == BlockKind::Root,
    {
        BlockKind::Root
    }
}

/// No two data kinds share a code.
pub proof fn lemma_data_code_injective(a: DataTagKind, b: DataTagKind)
    requires
        a.spec_code() == b.spec_code(),
    ensures
        a == b,
{
}

/// Looking up the code of a data kind gives that kind back.
pub proof fn lemma_data_kind_of_code(k: DataTagKind)
    ensures
        DataTagKind::recognizes(k.spec_code()),
        DataTagKind::of_code(k.spec_code()) == Some(k),
{
    let c = k.spec_code();
    assert(DataTagKind::recognizes(c));
    let w = choose|w: DataTagKind| #[trigger] w.spec_code() == c;
    lemma_data_code_injective(w, k);
}

/// No two structural kinds share a code.
pub proof fn lemma_block_tag_code_injective(a: BlockTagKind, b: BlockTagKind)
    requires
        a.spec_code() == b.spec_code(),
    ensures
        a == b,
{
}

/// Looking up the code of a structural kind gives that kind back.
pub proof fn lemma_block_tag_kind_of_code(k: BlockTagKind)
    ensures
        BlockTagKind::recognizes(k.spec_code()),
        BlockTagKind::of_code(k.spec_code()) == Some(k),
{
    let c = k.spec_code();
    assert(BlockTagKind::recognizes(c));
    let w = choose|w: BlockTagKind| #[trigger] w.spec_code() == c;
    lemma_block_tag_code_injective(w, k);
}

/// No two named block kinds share a code.
pub proof fn lemma_block_code_injective(a: BlockKind, b: BlockKind)
    requires
        !(a is Code),
        !(b is Code),
        a.spec_code() == b.spec_code(),
    ensures
        a == b,
{
}

/// Looking up the code of a named block kind gives that kind back.
pub proof fn lemma_block_kind_of_code(k: BlockKind)
    requires
        !(k is Code),
    ensures
        BlockKind::names(k.spec_code()),
        BlockKind::of_code(k.spec_code()) == k,
{
    let c = k.spec_code();
    assert(BlockKind::names(c));
    let w = choose|w: BlockKind| !(w is Code) && #[trigger] w.spec_code() == c;
    lemma_block_code_injective(w, k);
}

/// The two classifications of a tag's code exclude each other: no code is both
/// a structural code and a data code.
pub proof fn lemma_classifications_exclusive(code: i32)
    ensures
        !(BlockTagKind::recognizes(code) && DataTagKind::recognizes(code)),
        !(BlockTagKind::of_code(code) is Some && DataTagKind::of_code(code) is Some),
{
}

} // verus!
