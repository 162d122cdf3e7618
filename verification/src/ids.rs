//! The Matroska element catalogue: every known element ID, with its wire
//! type and whether the schema lets it carry an unknown size.

use vstd::prelude::*;

use crate::errors::MatroskaError;
use crate::ElementType;

verus! {

/// A known element identifier from the Matroska schema.
#[derive(Debug, PartialEq, Eq, Clone, Copy, Structural)]
pub enum EbmlId {
    ChapterDisplay,
    TrackType,
    ChapString,
    CodecId,
    FlagDefault,
    ChapterTrackUid,
    Slices,
    ChapterTrack,
    ChapterTimeStart,
    ChapterTimeEnd,
    CueRefTime,
    CueRefCluster,
    ChapterFlagHidden,
    FlagInterlaced,
    BlockDuration,
    FlagLacing,
    FieldOrder,
    Channels,
    BlockGroup,
    Block,
    BlockVirtual,
    SimpleBlock,
    CodecState,
    BlockAdditional,
    BlockMore,
    Position,
    CodecDecodeAll,
    PrevSize,
    TrackEntry,
    EncryptedBlock,
    PixelWidth,
    CueDuration,
    CueTime,
    SamplingFrequency,
    ChapterAtom,
    CueTrackPositions,
    FlagEnabled,
    PixelHeight,
    CuePoint,
    Crc32,
    TrickTrackUid,
    TrickTrackSegmentUid,
    TrickStructTrackSegmentUid,
    TrickTrackFlag,
    TrickStructTrackUid,
    ReferenceFrame,
    ReferenceOffset,
    ReferenceTimestamp,
    BlockAdditionId,
    LaceNumber,
    FrameNumber,
    Delay,
    SliceDuration,
    TrackNumber,
    CueReference,
    Video,
    Audio,
    TrackOperation,
    TrackCombinePlanes,
    TrackPlane,
    TrackPlaneUid,
    TrackPlaneType,
    Timestamp,
    TimeSlice,
    TrackJoinBlocks,
    CueCodecState,
    CueRefCodecState,
    Void,
    TrackJoinUid,
    BlockAddId,
    CueRelativePosition,
    CueClusterPosition,
    CueTrack,
    ReferencePriority,
    ReferenceBlock,
    ReferenceVirtual,
    BlockAddIdName,
    BlockAdditionMapping,
    BlockAddIdType,
    BlockAddIdExtraData,
    BlockAddIdValue,
    ContentCompAlgo,
    ContentCompSettings,
    DocTypeExtension,
    DocType,
    DocTypeExtensionName,
    DocTypeExtensionVersion,
    DocTypeReadVersion,
    Version,
    DocTypeVersion,
    EbmlMaxIdLength,
    EbmlMaxSizeLength,
    ReadVersion,
    ChapLanguage,
    ChapLanguageBcp47,
    ChapCountry,
    SegmentFamily,
    DateUtc,
    TagLanguage,
    TagLanguageBcp47,
    TagDefault,
    TagBinary,
    TagString,
    Duration,
    TagDefaultBogus,
    ChapProcessPrivate,
    EditionDisplay,
    EditionString,
    ChapterSkipType,
    ChapterFlagEnabled,
    TagName,
    EditionEntry,
    EditionUid,
    EditionFlagHidden,
    EditionFlagDefault,
    EditionFlagOrdered,
    EditionLanguageIetf,
    FileData,
    FileMediaType,
    FileUsedStartTime,
    FileUsedEndTime,
    FileName,
    FileReferral,
    FileDescription,
    FileUid,
    ContentEncAlgo,
    ContentEncKeyId,
    ContentSignature,
    ContentSigKeyId,
    ContentSigAlgo,
    ContentSigHashAlgo,
    ContentEncAesSettings,
    AesSettingsCipherMode,
    MuxingApp,
    Seek,
    ContentEncodingOrder,
    ContentEncodingScope,
    ContentEncodingType,
    ContentCompression,
    ContentEncryption,
    Emphasis,
    CueRefNumber,
    Name,
    CueBlockNumber,
    TrackOffset,
    SeekId,
    SeekPosition,
    StereoMode,
    OldStereoMode,
    AlphaMode,
    PixelCropBottom,
    DisplayWidth,
    DisplayUnit,
    AspectRatioType,
    DisplayHeight,
    PixelCropTop,
    PixelCropLeft,
    PixelCropRight,
    FlagForced,
    FlagHearingImpaired,
    FlagVisualImpaired,
    FlagTextDescriptions,
    FlagOriginal,
    FlagCommentary,
    Colour,
    MatrixCoefficients,
    BitsPerChannel,
    ChromaSubsamplingHorz,
    ChromaSubsamplingVert,
    CbSubsamplingHorz,
    CbSubsamplingVert,
    ChromaSitingHorz,
    ChromaSitingVert,
    Range,
    TransferCharacteristics,
    Primaries,
    MaxCll,
    MaxFall,
    StructingMetadata,
    PrimaryRChromaticityX,
    PrimaryRChromaticityY,
    PrimaryGChromaticityX,
    PrimaryGChromaticityY,
    PrimaryBChromaticityX,
    PrimaryBChromaticityY,
    WhitePointChromaticityX,
    WhitePointChromaticityY,
    LuminanceMax,
    LuminanceMin,
    MaxBlockAdditionId,
    ChapterStringUid,
    CodecDelay,
    SeekPreRoll,
    WritingApp,
    SilentTracks,
    SilentTrackNumber,
    AttachedFile,
    ContentEncoding,
    BitDepth,
    CodecPrivate,
    Targets,
    ChapterPhysicalEquiv,
    TagChapterUid,
    TagTrackUid,
    TagAttachmentUid,
    TagEditionUid,
    TargetType,
    TrackTranslate,
    TrackTranslateTrackId,
    TrackTranslateCodec,
    TrackTranslateEditionUid,
    SimpleTag,
    TargetTypeValue,
    ChapProcessCommand,
    ChapProcessTime,
    ChapterTranslate,
    ChapProcessData,
    ChapProcess,
    ChapProcessCodecId,
    ChapterTranslateId,
    ChapterTranslateCodec,
    ChapterTranslateEditionUid,
    ContentEncodings,
    MinCache,
    MaxCache,
    ChapterSegmentUuid,
    ChapterSegmentEditionUid,
    TrackOverlay,
    Tag,
    SegmentFilename,
    SegmentUuid,
    ChapterUid,
    TrackUid,
    AttachmentLink,
    BlockAdditions,
    DiscardPadding,
    Projection,
    ProjectionType,
    ProjectionPrivate,
    ProjectionPoseYaw,
    ProjectionPosePitch,
    ProjectionPoseRoll,
    OutputSamplingFrequency,
    Title,
    ChannelPositions,
    Language,
    LanguageBcp47,
    TrackTimestampScale,
    DefaultDecodedFieldDuration,
    FrameRate,
    DefaultDuration,
    CodecName,
    CodecDownloadUrl,
    TimestampScale,
    UncompressedFourCc,
    GammaValue,
    CodecSettings,
    CodecInfoUrl,
    PrevFilename,
    PrevUuid,
    NextFilename,
    NextUuid,
    Chapters,
    SeekHead,
    Tags,
    Info,
    Tracks,
    Segment,
    Attachments,
    EbmlHeader,
    Cues,
    Cluster,
}

impl EbmlId {
    /// The numeric element ID, marker bit included.
    pub open spec fn spec_u64(self) -> u64 {
        match self {
            EbmlId::ChapterDisplay => 0x80,
            EbmlId::TrackType => 0x83,
            EbmlId::ChapString => 0x85,
            EbmlId::CodecId => 0x86,
            EbmlId::FlagDefault => 0x88,
            EbmlId::ChapterTrackUid => 0x89,
            EbmlId::Slices => 0x8E,
            EbmlId::ChapterTrack => 0x8F,
            EbmlId::ChapterTimeStart => 0x91,
            EbmlId::ChapterTimeEnd => 0x92,
            EbmlId::CueRefTime => 0x96,
            EbmlId::CueRefCluster => 0x97,
            EbmlId::ChapterFlagHidden => 0x98,
            EbmlId::FlagInterlaced => 0x9A,
            EbmlId::BlockDuration => 0x9B,
            EbmlId::FlagLacing => 0x9C,
            EbmlId::FieldOrder => 0x9D,
            EbmlId::Channels => 0x9F,
            EbmlId::BlockGroup => 0xA0,
            EbmlId::Block => 0xA1,
            EbmlId::BlockVirtual => 0xA2,
            EbmlId::SimpleBlock => 0xA3,
            EbmlId::CodecState => 0xA4,
            EbmlId::BlockAdditional => 0xA5,
            EbmlId::BlockMore => 0xA6,
            EbmlId::Position => 0xA7,
            EbmlId::CodecDecodeAll => 0xAA,
            EbmlId::PrevSize => 0xAB,
            EbmlId::TrackEntry => 0xAE,
            EbmlId::EncryptedBlock => 0xAF,
            EbmlId::PixelWidth => 0xB0,
            EbmlId::CueDuration => 0xB2,
            EbmlId::CueTime => 0xB3,
            EbmlId::SamplingFrequency => 0xB5,
            EbmlId::ChapterAtom => 0xB6,
            EbmlId::CueTrackPositions => 0xB7,
            EbmlId::FlagEnabled => 0xB9,
            EbmlId::PixelHeight => 0xBA,
            EbmlId::CuePoint => 0xBB,
            EbmlId::Crc32 => 0xBF,
            EbmlId::TrickTrackUid => 0xC0,
            EbmlId::TrickTrackSegmentUid => 0xC1,
            EbmlId::TrickStructTrackSegmentUid => 0xC4,
            EbmlId::TrickTrackFlag => 0xC6,
            EbmlId::TrickStructTrackUid => 0xC7,
            EbmlId::ReferenceFrame => 0xC8,
            EbmlId::ReferenceOffset => 0xC9,
            EbmlId::ReferenceTimestamp => 0xCA,
            EbmlId::BlockAdditionId => 0xCB,
            EbmlId::LaceNumber => 0xCC,
            EbmlId::FrameNumber => 0xCD,
            EbmlId::Delay => 0xCE,
            EbmlId::SliceDuration => 0xCF,
            EbmlId::TrackNumber => 0xD7,
            EbmlId::CueReference => 0xDB,
            EbmlId::Video => 0xE0,
            EbmlId::Audio => 0xE1,
            EbmlId::TrackOperation => 0xE2,
            EbmlId::TrackCombinePlanes => 0xE3,
            EbmlId::TrackPlane => 0xE4,
            EbmlId::TrackPlaneUid => 0xE5,
            EbmlId::TrackPlaneType => 0xE6,
            EbmlId::Timestamp => 0xE7,
            EbmlId::TimeSlice => 0xE8,
            EbmlId::TrackJoinBlocks => 0xE9,
            EbmlId::CueCodecState => 0xEA,
            EbmlId::CueRefCodecState => 0xEB,
            EbmlId::Void => 0xEC,
            EbmlId::TrackJoinUid => 0xED,
            EbmlId::BlockAddId => 0xEE,
            EbmlId::CueRelativePosition => 0xF0,
            EbmlId::CueClusterPosition => 0xF1,
            EbmlId::CueTrack => 0xF7,
            EbmlId::ReferencePriority => 0xFA,
            EbmlId::ReferenceBlock => 0xFB,
            EbmlId::ReferenceVirtual => 0xFD,
            EbmlId::BlockAddIdName => 0x41A4,
            EbmlId::BlockAdditionMapping => 0x41E4,
            EbmlId::BlockAddIdType => 0x41E7,
            EbmlId::BlockAddIdExtraData => 0x41ED,
            EbmlId::BlockAddIdValue => 0x41F0,
            EbmlId::ContentCompAlgo => 0x4254,
            EbmlId::ContentCompSettings => 0x4255,
            EbmlId::DocTypeExtension => 0x4281,
            EbmlId::DocType => 0x4282,
            EbmlId::DocTypeExtensionName => 0x4283,
            EbmlId::DocTypeExtensionVersion => 0x4284,
            EbmlId::DocTypeReadVersion => 0x4285,
            EbmlId::Version => 0x4286,
            EbmlId::DocTypeVersion => 0x4287,
            EbmlId::EbmlMaxIdLength => 0x42F2,
            EbmlId::EbmlMaxSizeLength => 0x42F3,
            EbmlId::ReadVersion => 0x42F7,
            EbmlId::ChapLanguage => 0x437C,
            EbmlId::ChapLanguageBcp47 => 0x437D,
            EbmlId::ChapCountry => 0x437E,
            EbmlId::SegmentFamily => 0x4444,
            EbmlId::DateUtc => 0x4461,
            EbmlId::TagLanguage => 0x447A,
            EbmlId::TagLanguageBcp47 => 0x447B,
            EbmlId::TagDefault => 0x4484,
            EbmlId::TagBinary => 0x4485,
            EbmlId::TagString => 0x4487,
            EbmlId::Duration => 0x4489,
            EbmlId::TagDefaultBogus => 0x44B4,
            EbmlId::ChapProcessPrivate => 0x450D,
            EbmlId::EditionDisplay => 0x4520,
            EbmlId::EditionString => 0x4521,
            EbmlId::ChapterSkipType => 0x4588,
            EbmlId::ChapterFlagEnabled => 0x4598,
            EbmlId::TagName => 0x45A3,
            EbmlId::EditionEntry => 0x45B9,
            EbmlId::EditionUid => 0x45BC,
            EbmlId::EditionFlagHidden => 0x45BD,
            EbmlId::EditionFlagDefault => 0x45DB,
            EbmlId::EditionFlagOrdered => 0x45DD,
            EbmlId::EditionLanguageIetf => 0x45E4,
            EbmlId::FileData => 0x465C,
            EbmlId::FileMediaType => 0x4660,
            EbmlId::FileUsedStartTime => 0x4661,
            EbmlId::FileUsedEndTime => 0x4662,
            EbmlId::FileName => 0x466E,
            EbmlId::FileReferral => 0x4675,
            EbmlId::FileDescription => 0x467E,
            EbmlId::FileUid => 0x46AE,
            EbmlId::ContentEncAlgo => 0x47E1,
            EbmlId::ContentEncKeyId => 0x47E2,
            EbmlId::ContentSignature => 0x47E3,
            EbmlId::ContentSigKeyId => 0x47E4,
            EbmlId::ContentSigAlgo => 0x47E5,
            EbmlId::ContentSigHashAlgo => 0x47E6,
            EbmlId::ContentEncAesSettings => 0x47E7,
            EbmlId::AesSettingsCipherMode => 0x47E8,
            EbmlId::MuxingApp => 0x4D80,
            EbmlId::Seek => 0x4DBB,
            EbmlId::ContentEncodingOrder => 0x5031,
            EbmlId::ContentEncodingScope => 0x5032,
            EbmlId::ContentEncodingType => 0x5033,
            EbmlId::ContentCompression => 0x5034,
            EbmlId::ContentEncryption => 0x5035,
            EbmlId::Emphasis => 0x52F1,
            EbmlId::CueRefNumber => 0x535F,
            EbmlId::Name => 0x536E,
            EbmlId::CueBlockNumber => 0x5378,
            EbmlId::TrackOffset => 0x537F,
            EbmlId::SeekId => 0x53AB,
            EbmlId::SeekPosition => 0x53AC,
            EbmlId::StereoMode => 0x53B8,
            EbmlId::OldStereoMode => 0x53B9,
            EbmlId::AlphaMode => 0x53C0,
            EbmlId::PixelCropBottom => 0x54AA,
            EbmlId::DisplayWidth => 0x54B0,
            EbmlId::DisplayUnit => 0x54B2,
            EbmlId::AspectRatioType => 0x54B3,
            EbmlId::DisplayHeight => 0x54BA,
            EbmlId::PixelCropTop => 0x54BB,
            EbmlId::PixelCropLeft => 0x54CC,
            EbmlId::PixelCropRight => 0x54DD,
            EbmlId::FlagForced => 0x55AA,
            EbmlId::FlagHearingImpaired => 0x55AB,
            EbmlId::FlagVisualImpaired => 0x55AC,
            EbmlId::FlagTextDescriptions => 0x55AD,
            EbmlId::FlagOriginal => 0x55AE,
            EbmlId::FlagCommentary => 0x55AF,
            EbmlId::Colour => 0x55B0,
            EbmlId::MatrixCoefficients => 0x55B1,
            EbmlId::BitsPerChannel => 0x55B2,
            EbmlId::ChromaSubsamplingHorz => 0x55B3,
            EbmlId::ChromaSubsamplingVert => 0x55B4,
            EbmlId::CbSubsamplingHorz => 0x55B5,
            EbmlId::CbSubsamplingVert => 0x55B6,
            EbmlId::ChromaSitingHorz => 0x55B7,
            EbmlId::ChromaSitingVert => 0x55B8,
            EbmlId::Range => 0x55B9,
            EbmlId::TransferCharacteristics => 0x55BA,
            EbmlId::Primaries => 0x55BB,
            EbmlId::MaxCll => 0x55BC,
            EbmlId::MaxFall => 0x55BD,
            EbmlId::StructingMetadata => 0x55D0,
            EbmlId::PrimaryRChromaticityX => 0x55D1,
            EbmlId::PrimaryRChromaticityY => 0x55D2,
            EbmlId::PrimaryGChromaticityX => 0x55D3,
            EbmlId::PrimaryGChromaticityY => 0x55D4,
            EbmlId::PrimaryBChromaticityX => 0x55D5,
            EbmlId::PrimaryBChromaticityY => 0x55D6,
            EbmlId::WhitePointChromaticityX => 0x55D7,
            EbmlId::WhitePointChromaticityY => 0x55D8,
            EbmlId::LuminanceMax => 0x55D9,
            EbmlId::LuminanceMin => 0x55DA,
            EbmlId::MaxBlockAdditionId => 0x55EE,
            EbmlId::ChapterStringUid => 0x5654,
            EbmlId::CodecDelay => 0x56AA,
            EbmlId::SeekPreRoll => 0x56BB,
            EbmlId::WritingApp => 0x5741,
            EbmlId::SilentTracks => 0x5854,
            EbmlId::SilentTrackNumber => 0x58D7,
            EbmlId::AttachedFile => 0x61A7,
            EbmlId::ContentEncoding => 0x6240,
            EbmlId::BitDepth => 0x6264,
            EbmlId::CodecPrivate => 0x63A2,
            EbmlId::Targets => 0x63C0,
            EbmlId::ChapterPhysicalEquiv => 0x63C3,
            EbmlId::TagChapterUid => 0x63C4,
            EbmlId::TagTrackUid => 0x63C5,
            EbmlId::TagAttachmentUid => 0x63C6,
            EbmlId::TagEditionUid => 0x63C9,
            EbmlId::TargetType => 0x63CA,
            EbmlId::TrackTranslate => 0x6624,
            EbmlId::TrackTranslateTrackId => 0x66A5,
            EbmlId::TrackTranslateCodec => 0x66BF,
            EbmlId::TrackTranslateEditionUid => 0x66FC,
            EbmlId::SimpleTag => 0x67C8,
            EbmlId::TargetTypeValue => 0x68CA,
            EbmlId::ChapProcessCommand => 0x6911,
            EbmlId::ChapProcessTime => 0x6922,
            EbmlId::ChapterTranslate => 0x6924,
            EbmlId::ChapProcessData => 0x6933,
            EbmlId::ChapProcess => 0x6944,
            EbmlId::ChapProcessCodecId => 0x6955,
            EbmlId::ChapterTranslateId => 0x69A5,
            EbmlId::ChapterTranslateCodec => 0x69BF,
            EbmlId::ChapterTranslateEditionUid => 0x69FC,
            EbmlId::ContentEncodings => 0x6D80,
            EbmlId::MinCache => 0x6DE7,
            EbmlId::MaxCache => 0x6DF8,
            EbmlId::ChapterSegmentUuid => 0x6E67,
            EbmlId::ChapterSegmentEditionUid => 0x6EBC,
            EbmlId::TrackOverlay => 0x6FAB,
            EbmlId::Tag => 0x7373,
            EbmlId::SegmentFilename => 0x7384,
            EbmlId::SegmentUuid => 0x73A4,
            EbmlId::ChapterUid => 0x73C4,
            EbmlId::TrackUid => 0x73C5,
            EbmlId::AttachmentLink => 0x7446,
            EbmlId::BlockAdditions => 0x75A1,
            EbmlId::DiscardPadding => 0x75A2,
            EbmlId::Projection => 0x7670,
            EbmlId::ProjectionType => 0x7671,
            EbmlId::ProjectionPrivate => 0x7672,
            EbmlId::ProjectionPoseYaw => 0x7673,
            EbmlId::ProjectionPosePitch => 0x7674,
            EbmlId::ProjectionPoseRoll => 0x7675,
            EbmlId::OutputSamplingFrequency => 0x78B5,
            EbmlId::Title => 0x7BA9,
            EbmlId::ChannelPositions => 0x7D7B,
            EbmlId::Language => 0x22B59C,
            EbmlId::LanguageBcp47 => 0x22B59D,
            EbmlId::TrackTimestampScale => 0x23314F,
            EbmlId::DefaultDecodedFieldDuration => 0x234E7A,
            EbmlId::FrameRate => 0x2383E3,
            EbmlId::DefaultDuration => 0x23E383,
            EbmlId::CodecName => 0x258688,
            EbmlId::CodecDownloadUrl => 0x26B240,
            EbmlId::TimestampScale => 0x2AD7B1,
            EbmlId::UncompressedFourCc => 0x2EB524,
            EbmlId::GammaValue => 0x2FB523,
            EbmlId::CodecSettings => 0x3A9697,
            EbmlId::CodecInfoUrl => 0x3B4040,
            EbmlId::PrevFilename => 0x3C83AB,
            EbmlId::PrevUuid => 0x3CB923,
            EbmlId::NextFilename => 0x3E83BB,
            EbmlId::NextUuid => 0x3EB923,
            EbmlId::Chapters => 0x1043A770,
            EbmlId::SeekHead => 0x114D9B74,
            EbmlId::Tags => 0x1254C367,
            EbmlId::Info => 0x1549A966,
            EbmlId::Tracks => 0x1654AE6B,
            EbmlId::Segment => 0x18538067,
            EbmlId::Attachments => 0x1941A469,
            EbmlId::EbmlHeader => 0x1A45DFA3,
            EbmlId::Cues => 0x1C53BB6B,
            EbmlId::Cluster => 0x1F43B675,
        }
    }

    /// The numeric element ID, marker bit included.
    pub fn to_u64(&self) -> (r: u64)
        ensures
            r == self.spec_u64(),
    {
        match self {
            EbmlId::ChapterDisplay => 0x80,
            EbmlId::TrackType => 0x83,
            EbmlId::ChapString => 0x85,
            EbmlId::CodecId => 0x86,
            EbmlId::FlagDefault => 0x88,
            EbmlId::ChapterTrackUid => 0x89,
            EbmlId::Slices => 0x8E,
            EbmlId::ChapterTrack => 0x8F,
            EbmlId::ChapterTimeStart => 0x91,
            EbmlId::ChapterTimeEnd => 0x92,
            EbmlId::CueRefTime => 0x96,
            EbmlId::CueRefCluster => 0x97,
            EbmlId::ChapterFlagHidden => 0x98,
            EbmlId::FlagInterlaced => 0x9A,
            EbmlId::BlockDuration => 0x9B,
            EbmlId::FlagLacing => 0x9C,
            EbmlId::FieldOrder => 0x9D,
            EbmlId::Channels => 0x9F,
            EbmlId::BlockGroup => 0xA0,
            EbmlId::Block => 0xA1,
            EbmlId::BlockVirtual => 0xA2,
            EbmlId::SimpleBlock => 0xA3,
            EbmlId::CodecState => 0xA4,
            EbmlId::BlockAdditional => 0xA5,
            EbmlId::BlockMore => 0xA6,
            EbmlId::Position => 0xA7,
            EbmlId::CodecDecodeAll => 0xAA,
            EbmlId::PrevSize => 0xAB,
            EbmlId::TrackEntry => 0xAE,
            EbmlId::EncryptedBlock => 0xAF,
            EbmlId::PixelWidth => 0xB0,
            EbmlId::CueDuration => 0xB2,
            EbmlId::CueTime => 0xB3,
            EbmlId::SamplingFrequency => 0xB5,
            EbmlId::ChapterAtom => 0xB6,
            EbmlId::CueTrackPositions => 0xB7,
            EbmlId::FlagEnabled => 0xB9,
            EbmlId::PixelHeight => 0xBA,
            EbmlId::CuePoint => 0xBB,
            EbmlId::Crc32 => 0xBF,
            EbmlId::TrickTrackUid => 0xC0,
            EbmlId::TrickTrackSegmentUid => 0xC1,
            EbmlId::TrickStructTrackSegmentUid => 0xC4,
            EbmlId::TrickTrackFlag => 0xC6,
            EbmlId::TrickStructTrackUid => 0xC7,
            EbmlId::ReferenceFrame => 0xC8,
            EbmlId::ReferenceOffset => 0xC9,
            EbmlId::ReferenceTimestamp => 0xCA,
            EbmlId::BlockAdditionId => 0xCB,
            EbmlId::LaceNumber => 0xCC,
            EbmlId::FrameNumber => 0xCD,
            EbmlId::Delay => 0xCE,
            EbmlId::SliceDuration => 0xCF,
            EbmlId::TrackNumber => 0xD7,
            EbmlId::CueReference => 0xDB,
            EbmlId::Video => 0xE0,
            EbmlId::Audio => 0xE1,
            EbmlId::TrackOperation => 0xE2,
            EbmlId::TrackCombinePlanes => 0xE3,
            EbmlId::TrackPlane => 0xE4,
            EbmlId::TrackPlaneUid => 0xE5,
            EbmlId::TrackPlaneType => 0xE6,
            EbmlId::Timestamp => 0xE7,
            EbmlId::TimeSlice => 0xE8,
            EbmlId::TrackJoinBlocks => 0xE9,
            EbmlId::CueCodecState => 0xEA,
            EbmlId::CueRefCodecState => 0xEB,
            EbmlId::Void => 0xEC,
            EbmlId::TrackJoinUid => 0xED,
            EbmlId::BlockAddId => 0xEE,
            EbmlId::CueRelativePosition => 0xF0,
            EbmlId::CueClusterPosition => 0xF1,
            EbmlId::CueTrack => 0xF7,
            EbmlId::ReferencePriority => 0xFA,
            EbmlId::ReferenceBlock => 0xFB,
            EbmlId::ReferenceVirtual => 0xFD,
            EbmlId::BlockAddIdName => 0x41A4,
            EbmlId::BlockAdditionMapping => 0x41E4,
            EbmlId::BlockAddIdType => 0x41E7,
            EbmlId::BlockAddIdExtraData => 0x41ED,
            EbmlId::BlockAddIdValue => 0x41F0,
            EbmlId::ContentCompAlgo => 0x4254,
            EbmlId::ContentCompSettings => 0x4255,
            EbmlId::DocTypeExtension => 0x4281,
            EbmlId::DocType => 0x4282,
            EbmlId::DocTypeExtensionName => 0x4283,
            EbmlId::DocTypeExtensionVersion => 0x4284,
            EbmlId::DocTypeReadVersion => 0x4285,
            EbmlId::Version => 0x4286,
            EbmlId::DocTypeVersion => 0x4287,
            EbmlId::EbmlMaxIdLength => 0x42F2,
            EbmlId::EbmlMaxSizeLength => 0x42F3,
            EbmlId::ReadVersion => 0x42F7,
            EbmlId::ChapLanguage => 0x437C,
            EbmlId::ChapLanguageBcp47 => 0x437D,
            EbmlId::ChapCountry => 0x437E,
            EbmlId::SegmentFamily => 0x4444,
            EbmlId::DateUtc => 0x4461,
            EbmlId::TagLanguage => 0x447A,
            EbmlId::TagLanguageBcp47 => 0x447B,
            EbmlId::TagDefault => 0x4484,
            EbmlId::TagBinary => 0x4485,
            EbmlId::TagString => 0x4487,
            EbmlId::Duration => 0x4489,
            EbmlId::TagDefaultBogus => 0x44B4,
            EbmlId::ChapProcessPrivate => 0x450D,
            EbmlId::EditionDisplay => 0x4520,
            EbmlId::EditionString => 0x4521,
            EbmlId::ChapterSkipType => 0x4588,
            EbmlId::ChapterFlagEnabled => 0x4598,
            EbmlId::TagName => 0x45A3,
            EbmlId::EditionEntry => 0x45B9,
            EbmlId::EditionUid => 0x45BC,
            EbmlId::EditionFlagHidden => 0x45BD,
            EbmlId::EditionFlagDefault => 0x45DB,
            EbmlId::EditionFlagOrdered => 0x45DD,
            EbmlId::EditionLanguageIetf => 0x45E4,
            EbmlId::FileData => 0x465C,
            EbmlId::FileMediaType => 0x4660,
            EbmlId::FileUsedStartTime => 0x4661,
            EbmlId::FileUsedEndTime => 0x4662,
            EbmlId::FileName => 0x466E,
            EbmlId::FileReferral => 0x4675,
            EbmlId::FileDescription => 0x467E,
            EbmlId::FileUid => 0x46AE,
            EbmlId::ContentEncAlgo => 0x47E1,
            EbmlId::ContentEncKeyId => 0x47E2,
            EbmlId::ContentSignature => 0x47E3,
            EbmlId::ContentSigKeyId => 0x47E4,
            EbmlId::ContentSigAlgo => 0x47E5,
            EbmlId::ContentSigHashAlgo => 0x47E6,
            EbmlId::ContentEncAesSettings => 0x47E7,
            EbmlId::AesSettingsCipherMode => 0x47E8,
            EbmlId::MuxingApp => 0x4D80,
            EbmlId::Seek => 0x4DBB,
            EbmlId::ContentEncodingOrder => 0x5031,
            EbmlId::ContentEncodingScope => 0x5032,
            EbmlId::ContentEncodingType => 0x5033,
            EbmlId::ContentCompression => 0x5034,
            EbmlId::ContentEncryption => 0x5035,
            EbmlId::Emphasis => 0x52F1,
            EbmlId::CueRefNumber => 0x535F,
            EbmlId::Name => 0x536E,
            EbmlId::CueBlockNumber => 0x5378,
            EbmlId::TrackOffset => 0x537F,
            EbmlId::SeekId => 0x53AB,
            EbmlId::SeekPosition => 0x53AC,
            EbmlId::StereoMode => 0x53B8,
            EbmlId::OldStereoMode => 0x53B9,
            EbmlId::AlphaMode => 0x53C0,
            EbmlId::PixelCropBottom => 0x54AA,
            EbmlId::DisplayWidth => 0x54B0,
            EbmlId::DisplayUnit => 0x54B2,
            EbmlId::AspectRatioType => 0x54B3,
            EbmlId::DisplayHeight => 0x54BA,
            EbmlId::PixelCropTop => 0x54BB,
            EbmlId::PixelCropLeft => 0x54CC,
            EbmlId::PixelCropRight => 0x54DD,
            EbmlId::FlagForced => 0x55AA,
            EbmlId::FlagHearingImpaired => 0x55AB,
            EbmlId::FlagVisualImpaired => 0x55AC,
            EbmlId::FlagTextDescriptions => 0x55AD,
            EbmlId::FlagOriginal => 0x55AE,
            EbmlId::FlagCommentary => 0x55AF,
            EbmlId::Colour => 0x55B0,
            EbmlId::MatrixCoefficients => 0x55B1,
            EbmlId::BitsPerChannel => 0x55B2,
            EbmlId::ChromaSubsamplingHorz => 0x55B3,
            EbmlId::ChromaSubsamplingVert => 0x55B4,
            EbmlId::CbSubsamplingHorz => 0x55B5,
            EbmlId::CbSubsamplingVert => 0x55B6,
            EbmlId::ChromaSitingHorz => 0x55B7,
            EbmlId::ChromaSitingVert => 0x55B8,
            EbmlId::Range => 0x55B9,
            EbmlId::TransferCharacteristics => 0x55BA,
            EbmlId::Primaries => 0x55BB,
            EbmlId::MaxCll => 0x55BC,
            EbmlId::MaxFall => 0x55BD,
            EbmlId::StructingMetadata => 0x55D0,
            EbmlId::PrimaryRChromaticityX => 0x55D1,
            EbmlId::PrimaryRChromaticityY => 0x55D2,
            EbmlId::PrimaryGChromaticityX => 0x55D3,
            EbmlId::PrimaryGChromaticityY => 0x55D4,
            EbmlId::PrimaryBChromaticityX => 0x55D5,
            EbmlId::PrimaryBChromaticityY => 0x55D6,
            EbmlId::WhitePointChromaticityX => 0x55D7,
            EbmlId::WhitePointChromaticityY => 0x55D8,
            EbmlId::LuminanceMax => 0x55D9,
            EbmlId::LuminanceMin => 0x55DA,
            EbmlId::MaxBlockAdditionId => 0x55EE,
            EbmlId::ChapterStringUid => 0x5654,
            EbmlId::CodecDelay => 0x56AA,
            EbmlId::SeekPreRoll => 0x56BB,
            EbmlId::WritingApp => 0x5741,
            EbmlId::SilentTracks => 0x5854,
            EbmlId::SilentTrackNumber => 0x58D7,
            EbmlId::AttachedFile => 0x61A7,
            EbmlId::ContentEncoding => 0x6240,
            EbmlId::BitDepth => 0x6264,
            EbmlId::CodecPrivate => 0x63A2,
            EbmlId::Targets => 0x63C0,
            EbmlId::ChapterPhysicalEquiv => 0x63C3,
            EbmlId::TagChapterUid => 0x63C4,
            EbmlId::TagTrackUid => 0x63C5,
            EbmlId::TagAttachmentUid => 0x63C6,
            EbmlId::TagEditionUid => 0x63C9,
            EbmlId::TargetType => 0x63CA,
            EbmlId::TrackTranslate => 0x6624,
            EbmlId::TrackTranslateTrackId => 0x66A5,
            EbmlId::TrackTranslateCodec => 0x66BF,
            EbmlId::TrackTranslateEditionUid => 0x66FC,
            EbmlId::SimpleTag => 0x67C8,
            EbmlId::TargetTypeValue => 0x68CA,
            EbmlId::ChapProcessCommand => 0x6911,
            EbmlId::ChapProcessTime => 0x6922,
            EbmlId::ChapterTranslate => 0x6924,
            EbmlId::ChapProcessData => 0x6933,
            EbmlId::ChapProcess => 0x6944,
            EbmlId::ChapProcessCodecId => 0x6955,
            EbmlId::ChapterTranslateId => 0x69A5,
            EbmlId::ChapterTranslateCodec => 0x69BF,
            EbmlId::ChapterTranslateEditionUid => 0x69FC,
            EbmlId::ContentEncodings => 0x6D80,
            EbmlId::MinCache => 0x6DE7,
            EbmlId::MaxCache => 0x6DF8,
            EbmlId::ChapterSegmentUuid => 0x6E67,
            EbmlId::ChapterSegmentEditionUid => 0x6EBC,
            EbmlId::TrackOverlay => 0x6FAB,
            EbmlId::Tag => 0x7373,
            EbmlId::SegmentFilename => 0x7384,
            EbmlId::SegmentUuid => 0x73A4,
            EbmlId::ChapterUid => 0x73C4,
            EbmlId::TrackUid => 0x73C5,
            EbmlId::AttachmentLink => 0x7446,
            EbmlId::BlockAdditions => 0x75A1,
            EbmlId::DiscardPadding => 0x75A2,
            EbmlId::Projection => 0x7670,
            EbmlId::ProjectionType => 0x7671,
            EbmlId::ProjectionPrivate => 0x7672,
            EbmlId::ProjectionPoseYaw => 0x7673,
            EbmlId::ProjectionPosePitch => 0x7674,
            EbmlId::ProjectionPoseRoll => 0x7675,
            EbmlId::OutputSamplingFrequency => 0x78B5,
            EbmlId::Title => 0x7BA9,
            EbmlId::ChannelPositions => 0x7D7B,
            EbmlId::Language => 0x22B59C,
            EbmlId::LanguageBcp47 => 0x22B59D,
            EbmlId::TrackTimestampScale => 0x23314F,
            EbmlId::DefaultDecodedFieldDuration => 0x234E7A,
            EbmlId::FrameRate => 0x2383E3,
            EbmlId::DefaultDuration => 0x23E383,
            EbmlId::CodecName => 0x258688,
            EbmlId::CodecDownloadUrl => 0x26B240,
            EbmlId::TimestampScale => 0x2AD7B1,
            EbmlId::UncompressedFourCc => 0x2EB524,
            EbmlId::GammaValue => 0x2FB523,
            EbmlId::CodecSettings => 0x3A9697,
            EbmlId::CodecInfoUrl => 0x3B4040,
            EbmlId::PrevFilename => 0x3C83AB,
            EbmlId::PrevUuid => 0x3CB923,
            EbmlId::NextFilename => 0x3E83BB,
            EbmlId::NextUuid => 0x3EB923,
            EbmlId::Chapters => 0x1043A770,
            EbmlId::SeekHead => 0x114D9B74,
            EbmlId::Tags => 0x1254C367,
            EbmlId::Info => 0x1549A966,
            EbmlId::Tracks => 0x1654AE6B,
            EbmlId::Segment => 0x18538067,
            EbmlId::Attachments => 0x1941A469,
            EbmlId::EbmlHeader => 0x1A45DFA3,
            EbmlId::Cues => 0x1C53BB6B,
            EbmlId::Cluster => 0x1F43B675,
        }
    }

    /// The element, if the value names one in the schema.
    pub open spec fn spec_from_u64(id: u64) -> Option<EbmlId> {
        match id {
            0x80u64 => Some(EbmlId::ChapterDisplay),
            0x83u64 => Some(EbmlId::TrackType),
            0x85u64 => Some(EbmlId::ChapString),
            0x86u64 => Some(EbmlId::CodecId),
            0x88u64 => Some(EbmlId::FlagDefault),
            0x89u64 => Some(EbmlId::ChapterTrackUid),
            0x8Eu64 => Some(EbmlId::Slices),
            0x8Fu64 => Some(EbmlId::ChapterTrack),
            0x91u64 => Some(EbmlId::ChapterTimeStart),
            0x92u64 => Some(EbmlId::ChapterTimeEnd),
            0x96u64 => Some(EbmlId::CueRefTime),
            0x97u64 => Some(EbmlId::CueRefCluster),
            0x98u64 => Some(EbmlId::ChapterFlagHidden),
            0x9Au64 => Some(EbmlId::FlagInterlaced),
            0x9Bu64 => Some(EbmlId::BlockDuration),
            0x9Cu64 => Some(EbmlId::FlagLacing),
            0x9Du64 => Some(EbmlId::FieldOrder),
            0x9Fu64 => Some(EbmlId::Channels),
            0xA0u64 => Some(EbmlId::BlockGroup),
            0xA1u64 => Some(EbmlId::Block),
            0xA2u64 => Some(EbmlId::BlockVirtual),
            0xA3u64 => Some(EbmlId::SimpleBlock),
            0xA4u64 => Some(EbmlId::CodecState),
            0xA5u64 => Some(EbmlId::BlockAdditional),
            0xA6u64 => Some(EbmlId::BlockMore),
            0xA7u64 => Some(EbmlId::Position),
            0xAAu64 => Some(EbmlId::CodecDecodeAll),
            0xABu64 => Some(EbmlId::PrevSize),
            0xAEu64 => Some(EbmlId::TrackEntry),
            0xAFu64 => Some(EbmlId::EncryptedBlock),
            0xB0u64 => Some(EbmlId::PixelWidth),
            0xB2u64 => Some(EbmlId::CueDuration),
            0xB3u64 => Some(EbmlId::CueTime),
            0xB5u64 => Some(EbmlId::SamplingFrequency),
            0xB6u64 => Some(EbmlId::ChapterAtom),
            0xB7u64 => Some(EbmlId::CueTrackPositions),
            0xB9u64 => Some(EbmlId::FlagEnabled),
            0xBAu64 => Some(EbmlId::PixelHeight),
            0xBBu64 => Some(EbmlId::CuePoint),
            0xBFu64 => Some(EbmlId::Crc32),
            0xC0u64 => Some(EbmlId::TrickTrackUid),
            0xC1u64 => Some(EbmlId::TrickTrackSegmentUid),
            0xC4u64 => Some(EbmlId::TrickStructTrackSegmentUid),
            0xC6u64 => Some(EbmlId::TrickTrackFlag),
            0xC7u64 => Some(EbmlId::TrickStructTrackUid),
            0xC8u64 => Some(EbmlId::ReferenceFrame),
            0xC9u64 => Some(EbmlId::ReferenceOffset),
            0xCAu64 => Some(EbmlId::ReferenceTimestamp),
            0xCBu64 => Some(EbmlId::BlockAdditionId),
            0xCCu64 => Some(EbmlId::LaceNumber),
            0xCDu64 => Some(EbmlId::FrameNumber),
            0xCEu64 => Some(EbmlId::Delay),
            0xCFu64 => Some(EbmlId::SliceDuration),
            0xD7u64 => Some(EbmlId::TrackNumber),
            0xDBu64 => Some(EbmlId::CueReference),
            0xE0u64 => Some(EbmlId::Video),
            0xE1u64 => Some(EbmlId::Audio),
            0xE2u64 => Some(EbmlId::TrackOperation),
            0xE3u64 => Some(EbmlId::TrackCombinePlanes),
            0xE4u64 => Some(EbmlId::TrackPlane),
            0xE5u64 => Some(EbmlId::TrackPlaneUid),
            0xE6u64 => Some(EbmlId::TrackPlaneType),
            0xE7u64 => Some(EbmlId::Timestamp),
            0xE8u64 => Some(EbmlId::TimeSlice),
            0xE9u64 => Some(EbmlId::TrackJoinBlocks),
            0xEAu64 => Some(EbmlId::CueCodecState),
            0xEBu64 => Some(EbmlId::CueRefCodecState),
            0xECu64 => Some(EbmlId::Void),
            0xEDu64 => Some(EbmlId::TrackJoinUid),
            0xEEu64 => Some(EbmlId::BlockAddId),
            0xF0u64 => Some(EbmlId::CueRelativePosition),
            0xF1u64 => Some(EbmlId::CueClusterPosition),
            0xF7u64 => Some(EbmlId::CueTrack),
            0xFAu64 => Some(EbmlId::ReferencePriority),
            0xFBu64 => Some(EbmlId::ReferenceBlock),
            0xFDu64 => Some(EbmlId::ReferenceVirtual),
            0x41A4u64 => Some(EbmlId::BlockAddIdName),
            0x41E4u64 => Some(EbmlId::BlockAdditionMapping),
            0x41E7u64 => Some(EbmlId::BlockAddIdType),
            0x41EDu64 => Some(EbmlId::BlockAddIdExtraData),
            0x41F0u64 => Some(EbmlId::BlockAddIdValue),
            0x4254u64 => Some(EbmlId::ContentCompAlgo),
            0x4255u64 => Some(EbmlId::ContentCompSettings),
            0x4281u64 => Some(EbmlId::DocTypeExtension),
            0x4282u64 => Some(EbmlId::DocType),
            0x4283u64 => Some(EbmlId::DocTypeExtensionName),
            0x4284u64 => Some(EbmlId::DocTypeExtensionVersion),
            0x4285u64 => Some(EbmlId::DocTypeReadVersion),
            0x4286u64 => Some(EbmlId::Version),
            0x4287u64 => Some(EbmlId::DocTypeVersion),
            0x42F2u64 => Some(EbmlId::EbmlMaxIdLength),
            0x42F3u64 => Some(EbmlId::EbmlMaxSizeLength),
            0x42F7u64 => Some(EbmlId::ReadVersion),
            0x437Cu64 => Some(EbmlId::ChapLanguage),
            0x437Du64 => Some(EbmlId::ChapLanguageBcp47),
            0x437Eu64 => Some(EbmlId::ChapCountry),
            0x4444u64 => Some(EbmlId::SegmentFamily),
            0x4461u64 => Some(EbmlId::DateUtc),
            0x447Au64 => Some(EbmlId::TagLanguage),
            0x447Bu64 => Some(EbmlId::TagLanguageBcp47),
            0x4484u64 => Some(EbmlId::TagDefault),
            0x4485u64 => Some(EbmlId::TagBinary),
            0x4487u64 => Some(EbmlId::TagString),
            0x4489u64 => Some(EbmlId::Duration),
            0x44B4u64 => Some(EbmlId::TagDefaultBogus),
            0x450Du64 => Some(EbmlId::ChapProcessPrivate),
            0x4520u64 => Some(EbmlId::EditionDisplay),
            0x4521u64 => Some(EbmlId::EditionString),
            0x4588u64 => Some(EbmlId::ChapterSkipType),
            0x4598u64 => Some(EbmlId::ChapterFlagEnabled),
            0x45A3u64 => Some(EbmlId::TagName),
            0x45B9u64 => Some(EbmlId::EditionEntry),
            0x45BCu64 => Some(EbmlId::EditionUid),
            0x45BDu64 => Some(EbmlId::EditionFlagHidden),
            0x45DBu64 => Some(EbmlId::EditionFlagDefault),
            0x45DDu64 => Some(EbmlId::EditionFlagOrdered),
            0x45E4u64 => Some(EbmlId::EditionLanguageIetf),
            0x465Cu64 => Some(EbmlId::FileData),
            0x4660u64 => Some(EbmlId::FileMediaType),
            0x4661u64 => Some(EbmlId::FileUsedStartTime),
            0x4662u64 => Some(EbmlId::FileUsedEndTime),
            0x466Eu64 => Some(EbmlId::FileName),
            0x4675u64 => Some(EbmlId::FileReferral),
            0x467Eu64 => Some(EbmlId::FileDescription),
            0x46AEu64 => Some(EbmlId::FileUid),
            0x47E1u64 => Some(EbmlId::ContentEncAlgo),
            0x47E2u64 => Some(EbmlId::ContentEncKeyId),
            0x47E3u64 => Some(EbmlId::ContentSignature),
            0x47E4u64 => Some(EbmlId::ContentSigKeyId),
            0x47E5u64 => Some(EbmlId::ContentSigAlgo),
            0x47E6u64 => Some(EbmlId::ContentSigHashAlgo),
            0x47E7u64 => Some(EbmlId::ContentEncAesSettings),
            0x47E8u64 => Some(EbmlId::AesSettingsCipherMode),
            0x4D80u64 => Some(EbmlId::MuxingApp),
            0x4DBBu64 => Some(EbmlId::Seek),
            0x5031u64 => Some(EbmlId::ContentEncodingOrder),
            0x5032u64 => Some(EbmlId::ContentEncodingScope),
            0x5033u64 => Some(EbmlId::ContentEncodingType),
            0x5034u64 => Some(EbmlId::ContentCompression),
            0x5035u64 => Some(EbmlId::ContentEncryption),
            0x52F1u64 => Some(EbmlId::Emphasis),
            0x535Fu64 => Some(EbmlId::CueRefNumber),
            0x536Eu64 => Some(EbmlId::Name),
            0x5378u64 => Some(EbmlId::CueBlockNumber),
            0x537Fu64 => Some(EbmlId::TrackOffset),
            0x53ABu64 => Some(EbmlId::SeekId),
            0x53ACu64 => Some(EbmlId::SeekPosition),
            0x53B8u64 => Some(EbmlId::StereoMode),
            0x53B9u64 => Some(EbmlId::OldStereoMode),
            0x53C0u64 => Some(EbmlId::AlphaMode),
            0x54AAu64 => Some(EbmlId::PixelCropBottom),
            0x54B0u64 => Some(EbmlId::DisplayWidth),
            0x54B2u64 => Some(EbmlId::DisplayUnit),
            0x54B3u64 => Some(EbmlId::AspectRatioType),
            0x54BAu64 => Some(EbmlId::DisplayHeight),
            0x54BBu64 => Some(EbmlId::PixelCropTop),
            0x54CCu64 => Some(EbmlId::PixelCropLeft),
            0x54DDu64 => Some(EbmlId::PixelCropRight),
            0x55AAu64 => Some(EbmlId::FlagForced),
            0x55ABu64 => Some(EbmlId::FlagHearingImpaired),
            0x55ACu64 => Some(EbmlId::FlagVisualImpaired),
            0x55ADu64 => Some(EbmlId::FlagTextDescriptions),
            0x55AEu64 => Some(EbmlId::FlagOriginal),
            0x55AFu64 => Some(EbmlId::FlagCommentary),
            0x55B0u64 => Some(EbmlId::Colour),
            0x55B1u64 => Some(EbmlId::MatrixCoefficients),
            0x55B2u64 => Some(EbmlId::BitsPerChannel),
            0x55B3u64 => Some(EbmlId::ChromaSubsamplingHorz),
            0x55B4u64 => Some(EbmlId::ChromaSubsamplingVert),
            0x55B5u64 => Some(EbmlId::CbSubsamplingHorz),
            0x55B6u64 => Some(EbmlId::CbSubsamplingVert),
            0x55B7u64 => Some(EbmlId::ChromaSitingHorz),
            0x55B8u64 => Some(EbmlId::ChromaSitingVert),
            0x55B9u64 => Some(EbmlId::Range),
            0x55BAu64 => Some(EbmlId::TransferCharacteristics),
            0x55BBu64 => Some(EbmlId::Primaries),
            0x55BCu64 => Some(EbmlId::MaxCll),
            0x55BDu64 => Some(EbmlId::MaxFall),
            0x55D0u64 => Some(EbmlId::StructingMetadata),
            0x55D1u64 => Some(EbmlId::PrimaryRChromaticityX),
            0x55D2u64 => Some(EbmlId::PrimaryRChromaticityY),
            0x55D3u64 => Some(EbmlId::PrimaryGChromaticityX),
            0x55D4u64 => Some(EbmlId::PrimaryGChromaticityY),
            0x55D5u64 => Some(EbmlId::PrimaryBChromaticityX),
            0x55D6u64 => Some(EbmlId::PrimaryBChromaticityY),
            0x55D7u64 => Some(EbmlId::WhitePointChromaticityX),
            0x55D8u64 => Some(EbmlId::WhitePointChromaticityY),
            0x55D9u64 => Some(EbmlId::LuminanceMax),
            0x55DAu64 => Some(EbmlId::LuminanceMin),
            0x55EEu64 => Some(EbmlId::MaxBlockAdditionId),
            0x5654u64 => Some(EbmlId::ChapterStringUid),
            0x56AAu64 => Some(EbmlId::CodecDelay),
            0x56BBu64 => Some(EbmlId::SeekPreRoll),
            0x5741u64 => Some(EbmlId::WritingApp),
            0x5854u64 => Some(EbmlId::SilentTracks),
            0x58D7u64 => Some(EbmlId::SilentTrackNumber),
            0x61A7u64 => Some(EbmlId::AttachedFile),
            0x6240u64 => Some(EbmlId::ContentEncoding),
            0x6264u64 => Some(EbmlId::BitDepth),
            0x63A2u64 => Some(EbmlId::CodecPrivate),
            0x63C0u64 => Some(EbmlId::Targets),
            0x63C3u64 => Some(EbmlId::ChapterPhysicalEquiv),
            0x63C4u64 => Some(EbmlId::TagChapterUid),
            0x63C5u64 => Some(EbmlId::TagTrackUid),
            0x63C6u64 => Some(EbmlId::TagAttachmentUid),
            0x63C9u64 => Some(EbmlId::TagEditionUid),
            0x63CAu64 => Some(EbmlId::TargetType),
            0x6624u64 => Some(EbmlId::TrackTranslate),
            0x66A5u64 => Some(EbmlId::TrackTranslateTrackId),
            0x66BFu64 => Some(EbmlId::TrackTranslateCodec),
            0x66FCu64 => Some(EbmlId::TrackTranslateEditionUid),
            0x67C8u64 => Some(EbmlId::SimpleTag),
            0x68CAu64 => Some(EbmlId::TargetTypeValue),
            0x6911u64 => Some(EbmlId::ChapProcessCommand),
            0x6922u64 => Some(EbmlId::ChapProcessTime),
            0x6924u64 => Some(EbmlId::ChapterTranslate),
            0x6933u64 => Some(EbmlId::ChapProcessData),
            0x6944u64 => Some(EbmlId::ChapProcess),
            0x6955u64 => Some(EbmlId::ChapProcessCodecId),
            0x69A5u64 => Some(EbmlId::ChapterTranslateId),
            0x69BFu64 => Some(EbmlId::ChapterTranslateCodec),
            0x69FCu64 => Some(EbmlId::ChapterTranslateEditionUid),
            0x6D80u64 => Some(EbmlId::ContentEncodings),
            0x6DE7u64 => Some(EbmlId::MinCache),
            0x6DF8u64 => Some(EbmlId::MaxCache),
            0x6E67u64 => Some(EbmlId::ChapterSegmentUuid),
            0x6EBCu64 => Some(EbmlId::ChapterSegmentEditionUid),
            0x6FABu64 => Some(EbmlId::TrackOverlay),
            0x7373u64 => Some(EbmlId::Tag),
            0x7384u64 => Some(EbmlId::SegmentFilename),
            0x73A4u64 => Some(EbmlId::SegmentUuid),
            0x73C4u64 => Some(EbmlId::ChapterUid),
            0x73C5u64 => Some(EbmlId::TrackUid),
            0x7446u64 => Some(EbmlId::AttachmentLink),
            0x75A1u64 => Some(EbmlId::BlockAdditions),
            0x75A2u64 => Some(EbmlId::DiscardPadding),
            0x7670u64 => Some(EbmlId::Projection),
            0x7671u64 => Some(EbmlId::ProjectionType),
            0x7672u64 => Some(EbmlId::ProjectionPrivate),
            0x7673u64 => Some(EbmlId::ProjectionPoseYaw),
            0x7674u64 => Some(EbmlId::ProjectionPosePitch),
            0x7675u64 => Some(EbmlId::ProjectionPoseRoll),
            0x78B5u64 => Some(EbmlId::OutputSamplingFrequency),
            0x7BA9u64 => Some(EbmlId::Title),
            0x7D7Bu64 => Some(EbmlId::ChannelPositions),
            0x22B59Cu64 => Some(EbmlId::Language),
            0x22B59Du64 => Some(EbmlId::LanguageBcp47),
            0x23314Fu64 => Some(EbmlId::TrackTimestampScale),
            0x234E7Au64 => Some(EbmlId::DefaultDecodedFieldDuration),
            0x2383E3u64 => Some(EbmlId::FrameRate),
            0x23E383u64 => Some(EbmlId::DefaultDuration),
            0x258688u64 => Some(EbmlId::CodecName),
            0x26B240u64 => Some(EbmlId::CodecDownloadUrl),
            0x2AD7B1u64 => Some(EbmlId::TimestampScale),
            0x2EB524u64 => Some(EbmlId::UncompressedFourCc),
            0x2FB523u64 => Some(EbmlId::GammaValue),
            0x3A9697u64 => Some(EbmlId::CodecSettings),
            0x3B4040u64 => Some(EbmlId::CodecInfoUrl),
            0x3C83ABu64 => Some(EbmlId::PrevFilename),
            0x3CB923u64 => Some(EbmlId::PrevUuid),
            0x3E83BBu64 => Some(EbmlId::NextFilename),
            0x3EB923u64 => Some(EbmlId::NextUuid),
            0x1043A770u64 => Some(EbmlId::Chapters),
            0x114D9B74u64 => Some(EbmlId::SeekHead),
            0x1254C367u64 => Some(EbmlId::Tags),
            0x1549A966u64 => Some(EbmlId::Info),
            0x1654AE6Bu64 => Some(EbmlId::Tracks),
            0x18538067u64 => Some(EbmlId::Segment),
            0x1941A469u64 => Some(EbmlId::Attachments),
            0x1A45DFA3u64 => Some(EbmlId::EbmlHeader),
            0x1C53BB6Bu64 => Some(EbmlId::Cues),
            0x1F43B675u64 => Some(EbmlId::Cluster),
            _ => None,
        }
    }

    /// Look an element up by its numeric ID.
    pub fn from_u64(id: u64) -> (r: Result<EbmlId, MatroskaError>)
        ensures
            r is Ok <==> EbmlId::spec_from_u64(id) is Some,
            r is Ok ==> Some(r->Ok_0) == EbmlId::spec_from_u64(id),
            r is Err ==> r->Err_0 == MatroskaError::InvalidID(id),
    {
        match id {
            0x80u64 => Ok(EbmlId::ChapterDisplay),
            0x83u64 => Ok(EbmlId::TrackType),
            0x85u64 => Ok(EbmlId::ChapString),
            0x86u64 => Ok(EbmlId::CodecId),
            0x88u64 => Ok(EbmlId::FlagDefault),
            0x89u64 => Ok(EbmlId::ChapterTrackUid),
            0x8Eu64 => Ok(EbmlId::Slices),
            0x8Fu64 => Ok(EbmlId::ChapterTrack),
            0x91u64 => Ok(EbmlId::ChapterTimeStart),
            0x92u64 => Ok(EbmlId::ChapterTimeEnd),
            0x96u64 => Ok(EbmlId::CueRefTime),
            0x97u64 => Ok(EbmlId::CueRefCluster),
            0x98u64 => Ok(EbmlId::ChapterFlagHidden),
            0x9Au64 => Ok(EbmlId::FlagInterlaced),
            0x9Bu64 => Ok(EbmlId::BlockDuration),
            0x9Cu64 => Ok(EbmlId::FlagLacing),
            0x9Du64 => Ok(EbmlId::FieldOrder),
            0x9Fu64 => Ok(EbmlId::Channels),
            0xA0u64 => Ok(EbmlId::BlockGroup),
            0xA1u64 => Ok(EbmlId::Block),
            0xA2u64 => Ok(EbmlId::BlockVirtual),
            0xA3u64 => Ok(EbmlId::SimpleBlock),
            0xA4u64 => Ok(EbmlId::CodecState),
            0xA5u64 => Ok(EbmlId::BlockAdditional),
            0xA6u64 => Ok(EbmlId::BlockMore),
            0xA7u64 => Ok(EbmlId::Position),
            0xAAu64 => Ok(EbmlId::CodecDecodeAll),
            0xABu64 => Ok(EbmlId::PrevSize),
            0xAEu64 => Ok(EbmlId::TrackEntry),
            0xAFu64 => Ok(EbmlId::EncryptedBlock),
            0xB0u64 => Ok(EbmlId::PixelWidth),
            0xB2u64 => Ok(EbmlId::CueDuration),
            0xB3u64 => Ok(EbmlId::CueTime),
            0xB5u64 => Ok(EbmlId::SamplingFrequency),
            0xB6u64 => Ok(EbmlId::ChapterAtom),
            0xB7u64 => Ok(EbmlId::CueTrackPositions),
            0xB9u64 => Ok(EbmlId::FlagEnabled),
            0xBAu64 => Ok(EbmlId::PixelHeight),
            0xBBu64 => Ok(EbmlId::CuePoint),
            0xBFu64 => Ok(EbmlId::Crc32),
            0xC0u64 => Ok(EbmlId::TrickTrackUid),
            0xC1u64 => Ok(EbmlId::TrickTrackSegmentUid),
            0xC4u64 => Ok(EbmlId::TrickStructTrackSegmentUid),
            0xC6u64 => Ok(EbmlId::TrickTrackFlag),
            0xC7u64 => Ok(EbmlId::TrickStructTrackUid),
            0xC8u64 => Ok(EbmlId::ReferenceFrame),
            0xC9u64 => Ok(EbmlId::ReferenceOffset),
            0xCAu64 => Ok(EbmlId::ReferenceTimestamp),
            0xCBu64 => Ok(EbmlId::BlockAdditionId),
            0xCCu64 => Ok(EbmlId::LaceNumber),
            0xCDu64 => Ok(EbmlId::FrameNumber),
            0xCEu64 => Ok(EbmlId::Delay),
            0xCFu64 => Ok(EbmlId::SliceDuration),
            0xD7u64 => Ok(EbmlId::TrackNumber),
            0xDBu64 => Ok(EbmlId::CueReference),
            0xE0u64 => Ok(EbmlId::Video),
            0xE1u64 => Ok(EbmlId::Audio),
            0xE2u64 => Ok(EbmlId::TrackOperation),
            0xE3u64 => Ok(EbmlId::TrackCombinePlanes),
            0xE4u64 => Ok(EbmlId::TrackPlane),
            0xE5u64 => Ok(EbmlId::TrackPlaneUid),
            0xE6u64 => Ok(EbmlId::TrackPlaneType),
            0xE7u64 => Ok(EbmlId::Timestamp),
            0xE8u64 => Ok(EbmlId::TimeSlice),
            0xE9u64 => Ok(EbmlId::TrackJoinBlocks),
            0xEAu64 => Ok(EbmlId::CueCodecState),
            0xEBu64 => Ok(EbmlId::CueRefCodecState),
            0xECu64 => Ok(EbmlId::Void),
            0xEDu64 => Ok(EbmlId::TrackJoinUid),
            0xEEu64 => Ok(EbmlId::BlockAddId),
            0xF0u64 => Ok(EbmlId::CueRelativePosition),
            0xF1u64 => Ok(EbmlId::CueClusterPosition),
            0xF7u64 => Ok(EbmlId::CueTrack),
            0xFAu64 => Ok(EbmlId::ReferencePriority),
            0xFBu64 => Ok(EbmlId::ReferenceBlock),
            0xFDu64 => Ok(EbmlId::ReferenceVirtual),
            0x41A4u64 => Ok(EbmlId::BlockAddIdName),
            0x41E4u64 => Ok(EbmlId::BlockAdditionMapping),
            0x41E7u64 => Ok(EbmlId::BlockAddIdType),
            0x41EDu64 => Ok(EbmlId::BlockAddIdExtraData),
            0x41F0u64 => Ok(EbmlId::BlockAddIdValue),
            0x4254u64 => Ok(EbmlId::ContentCompAlgo),
            0x4255u64 => Ok(EbmlId::ContentCompSettings),
            0x4281u64 => Ok(EbmlId::DocTypeExtension),
            0x4282u64 => Ok(EbmlId::DocType),
            0x4283u64 => Ok(EbmlId::DocTypeExtensionName),
            0x4284u64 => Ok(EbmlId::DocTypeExtensionVersion),
            0x4285u64 => Ok(EbmlId::DocTypeReadVersion),
            0x4286u64 => Ok(EbmlId::Version),
            0x4287u64 => Ok(EbmlId::DocTypeVersion),
            0x42F2u64 => Ok(EbmlId::EbmlMaxIdLength),
            0x42F3u64 => Ok(EbmlId::EbmlMaxSizeLength),
            0x42F7u64 => Ok(EbmlId::ReadVersion),
            0x437Cu64 => Ok(EbmlId::ChapLanguage),
            0x437Du64 => Ok(EbmlId::ChapLanguageBcp47),
            0x437Eu64 => Ok(EbmlId::ChapCountry),
            0x4444u64 => Ok(EbmlId::SegmentFamily),
            0x4461u64 => Ok(EbmlId::DateUtc),
            0x447Au64 => Ok(EbmlId::TagLanguage),
            0x447Bu64 => Ok(EbmlId::TagLanguageBcp47),
            0x4484u64 => Ok(EbmlId::TagDefault),
            0x4485u64 => Ok(EbmlId::TagBinary),
            0x4487u64 => Ok(EbmlId::TagString),
            0x4489u64 => Ok(EbmlId::Duration),
            0x44B4u64 => Ok(EbmlId::TagDefaultBogus),
            0x450Du64 => Ok(EbmlId::ChapProcessPrivate),
            0x4520u64 => Ok(EbmlId::EditionDisplay),
            0x4521u64 => Ok(EbmlId::EditionString),
            0x4588u64 => Ok(EbmlId::ChapterSkipType),
            0x4598u64 => Ok(EbmlId::ChapterFlagEnabled),
            0x45A3u64 => Ok(EbmlId::TagName),
            0x45B9u64 => Ok(EbmlId::EditionEntry),
            0x45BCu64 => Ok(EbmlId::EditionUid),
            0x45BDu64 => Ok(EbmlId::EditionFlagHidden),
            0x45DBu64 => Ok(EbmlId::EditionFlagDefault),
            0x45DDu64 => Ok(EbmlId::EditionFlagOrdered),
            0x45E4u64 => Ok(EbmlId::EditionLanguageIetf),
            0x465Cu64 => Ok(EbmlId::FileData),
            0x4660u64 => Ok(EbmlId::FileMediaType),
            0x4661u64 => Ok(EbmlId::FileUsedStartTime),
            0x4662u64 => Ok(EbmlId::FileUsedEndTime),
            0x466Eu64 => Ok(EbmlId::FileName),
            0x4675u64 => Ok(EbmlId::FileReferral),
            0x467Eu64 => Ok(EbmlId::FileDescription),
            0x46AEu64 => Ok(EbmlId::FileUid),
            0x47E1u64 => Ok(EbmlId::ContentEncAlgo),
            0x47E2u64 => Ok(EbmlId::ContentEncKeyId),
            0x47E3u64 => Ok(EbmlId::ContentSignature),
            0x47E4u64 => Ok(EbmlId::ContentSigKeyId),
            0x47E5u64 => Ok(EbmlId::ContentSigAlgo),
            0x47E6u64 => Ok(EbmlId::ContentSigHashAlgo),
            0x47E7u64 => Ok(EbmlId::ContentEncAesSettings),
            0x47E8u64 => Ok(EbmlId::AesSettingsCipherMode),
            0x4D80u64 => Ok(EbmlId::MuxingApp),
            0x4DBBu64 => Ok(EbmlId::Seek),
            0x5031u64 => Ok(EbmlId::ContentEncodingOrder),
            0x5032u64 => Ok(EbmlId::ContentEncodingScope),
            0x5033u64 => Ok(EbmlId::ContentEncodingType),
            0x5034u64 => Ok(EbmlId::ContentCompression),
            0x5035u64 => Ok(EbmlId::ContentEncryption),
            0x52F1u64 => Ok(EbmlId::Emphasis),
            0x535Fu64 => Ok(EbmlId::CueRefNumber),
            0x536Eu64 => Ok(EbmlId::Name),
            0x5378u64 => Ok(EbmlId::CueBlockNumber),
            0x537Fu64 => Ok(EbmlId::TrackOffset),
            0x53ABu64 => Ok(EbmlId::SeekId),
            0x53ACu64 => Ok(EbmlId::SeekPosition),
            0x53B8u64 => Ok(EbmlId::StereoMode),
            0x53B9u64 => Ok(EbmlId::OldStereoMode),
            0x53C0u64 => Ok(EbmlId::AlphaMode),
            0x54AAu64 => Ok(EbmlId::PixelCropBottom),
            0x54B0u64 => Ok(EbmlId::DisplayWidth),
            0x54B2u64 => Ok(EbmlId::DisplayUnit),
            0x54B3u64 => Ok(EbmlId::AspectRatioType),
            0x54BAu64 => Ok(EbmlId::DisplayHeight),
            0x54BBu64 => Ok(EbmlId::PixelCropTop),
            0x54CCu64 => Ok(EbmlId::PixelCropLeft),
            0x54DDu64 => Ok(EbmlId::PixelCropRight),
            0x55AAu64 => Ok(EbmlId::FlagForced),
            0x55ABu64 => Ok(EbmlId::FlagHearingImpaired),
            0x55ACu64 => Ok(EbmlId::FlagVisualImpaired),
            0x55ADu64 => Ok(EbmlId::FlagTextDescriptions),
            0x55AEu64 => Ok(EbmlId::FlagOriginal),
            0x55AFu64 => Ok(EbmlId::FlagCommentary),
            0x55B0u64 => Ok(EbmlId::Colour),
            0x55B1u64 => Ok(EbmlId::MatrixCoefficients),
            0x55B2u64 => Ok(EbmlId::BitsPerChannel),
            0x55B3u64 => Ok(EbmlId::ChromaSubsamplingHorz),
            0x55B4u64 => Ok(EbmlId::ChromaSubsamplingVert),
            0x55B5u64 => Ok(EbmlId::CbSubsamplingHorz),
            0x55B6u64 => Ok(EbmlId::CbSubsamplingVert),
            0x55B7u64 => Ok(EbmlId::ChromaSitingHorz),
            0x55B8u64 => Ok(EbmlId::ChromaSitingVert),
            0x55B9u64 => Ok(EbmlId::Range),
            0x55BAu64 => Ok(EbmlId::TransferCharacteristics),
            0x55BBu64 => Ok(EbmlId::Primaries),
            0x55BCu64 => Ok(EbmlId::MaxCll),
            0x55BDu64 => Ok(EbmlId::MaxFall),
            0x55D0u64 => Ok(EbmlId::StructingMetadata),
            0x55D1u64 => Ok(EbmlId::PrimaryRChromaticityX),
            0x55D2u64 => Ok(EbmlId::PrimaryRChromaticityY),
            0x55D3u64 => Ok(EbmlId::PrimaryGChromaticityX),
            0x55D4u64 => Ok(EbmlId::PrimaryGChromaticityY),
            0x55D5u64 => Ok(EbmlId::PrimaryBChromaticityX),
            0x55D6u64 => Ok(EbmlId::PrimaryBChromaticityY),
            0x55D7u64 => Ok(EbmlId::WhitePointChromaticityX),
            0x55D8u64 => Ok(EbmlId::WhitePointChromaticityY),
            0x55D9u64 => Ok(EbmlId::LuminanceMax),
            0x55DAu64 => Ok(EbmlId::LuminanceMin),
            0x55EEu64 => Ok(EbmlId::MaxBlockAdditionId),
            0x5654u64 => Ok(EbmlId::ChapterStringUid),
            0x56AAu64 => Ok(EbmlId::CodecDelay),
            0x56BBu64 => Ok(EbmlId::SeekPreRoll),
            0x5741u64 => Ok(EbmlId::WritingApp),
            0x5854u64 => Ok(EbmlId::SilentTracks),
            0x58D7u64 => Ok(EbmlId::SilentTrackNumber),
            0x61A7u64 => Ok(EbmlId::AttachedFile),
            0x6240u64 => Ok(EbmlId::ContentEncoding),
            0x6264u64 => Ok(EbmlId::BitDepth),
            0x63A2u64 => Ok(EbmlId::CodecPrivate),
            0x63C0u64 => Ok(EbmlId::Targets),
            0x63C3u64 => Ok(EbmlId::ChapterPhysicalEquiv),
            0x63C4u64 => Ok(EbmlId::TagChapterUid),
            0x63C5u64 => Ok(EbmlId::TagTrackUid),
            0x63C6u64 => Ok(EbmlId::TagAttachmentUid),
            0x63C9u64 => Ok(EbmlId::TagEditionUid),
            0x63CAu64 => Ok(EbmlId::TargetType),
            0x6624u64 => Ok(EbmlId::TrackTranslate),
            0x66A5u64 => Ok(EbmlId::TrackTranslateTrackId),
            0x66BFu64 => Ok(EbmlId::TrackTranslateCodec),
            0x66FCu64 => Ok(EbmlId::TrackTranslateEditionUid),
            0x67C8u64 => Ok(EbmlId::SimpleTag),
            0x68CAu64 => Ok(EbmlId::TargetTypeValue),
            0x6911u64 => Ok(EbmlId::ChapProcessCommand),
            0x6922u64 => Ok(EbmlId::ChapProcessTime),
            0x6924u64 => Ok(EbmlId::ChapterTranslate),
            0x6933u64 => Ok(EbmlId::ChapProcessData),
            0x6944u64 => Ok(EbmlId::ChapProcess),
            0x6955u64 => Ok(EbmlId::ChapProcessCodecId),
            0x69A5u64 => Ok(EbmlId::ChapterTranslateId),
            0x69BFu64 => Ok(EbmlId::ChapterTranslateCodec),
            0x69FCu64 => Ok(EbmlId::ChapterTranslateEditionUid),
            0x6D80u64 => Ok(EbmlId::ContentEncodings),
            0x6DE7u64 => Ok(EbmlId::MinCache),
            0x6DF8u64 => Ok(EbmlId::MaxCache),
            0x6E67u64 => Ok(EbmlId::ChapterSegmentUuid),
            0x6EBCu64 => Ok(EbmlId::ChapterSegmentEditionUid),
            0x6FABu64 => Ok(EbmlId::TrackOverlay),
            0x7373u64 => Ok(EbmlId::Tag),
            0x7384u64 => Ok(EbmlId::SegmentFilename),
            0x73A4u64 => Ok(EbmlId::SegmentUuid),
            0x73C4u64 => Ok(EbmlId::ChapterUid),
            0x73C5u64 => Ok(EbmlId::TrackUid),
            0x7446u64 => Ok(EbmlId::AttachmentLink),
            0x75A1u64 => Ok(EbmlId::BlockAdditions),
            0x75A2u64 => Ok(EbmlId::DiscardPadding),
            0x7670u64 => Ok(EbmlId::Projection),
            0x7671u64 => Ok(EbmlId::ProjectionType),
            0x7672u64 => Ok(EbmlId::ProjectionPrivate),
            0x7673u64 => Ok(EbmlId::ProjectionPoseYaw),
            0x7674u64 => Ok(EbmlId::ProjectionPosePitch),
            0x7675u64 => Ok(EbmlId::ProjectionPoseRoll),
            0x78B5u64 => Ok(EbmlId::OutputSamplingFrequency),
            0x7BA9u64 => Ok(EbmlId::Title),
            0x7D7Bu64 => Ok(EbmlId::ChannelPositions),
            0x22B59Cu64 => Ok(EbmlId::Language),
            0x22B59Du64 => Ok(EbmlId::LanguageBcp47),
            0x23314Fu64 => Ok(EbmlId::TrackTimestampScale),
            0x234E7Au64 => Ok(EbmlId::DefaultDecodedFieldDuration),
            0x2383E3u64 => Ok(EbmlId::FrameRate),
            0x23E383u64 => Ok(EbmlId::DefaultDuration),
            0x258688u64 => Ok(EbmlId::CodecName),
            0x26B240u64 => Ok(EbmlId::CodecDownloadUrl),
            0x2AD7B1u64 => Ok(EbmlId::TimestampScale),
            0x2EB524u64 => Ok(EbmlId::UncompressedFourCc),
            0x2FB523u64 => Ok(EbmlId::GammaValue),
            0x3A9697u64 => Ok(EbmlId::CodecSettings),
            0x3B4040u64 => Ok(EbmlId::CodecInfoUrl),
            0x3C83ABu64 => Ok(EbmlId::PrevFilename),
            0x3CB923u64 => Ok(EbmlId::PrevUuid),
            0x3E83BBu64 => Ok(EbmlId::NextFilename),
            0x3EB923u64 => Ok(EbmlId::NextUuid),
            0x1043A770u64 => Ok(EbmlId::Chapters),
            0x114D9B74u64 => Ok(EbmlId::SeekHead),
            0x1254C367u64 => Ok(EbmlId::Tags),
            0x1549A966u64 => Ok(EbmlId::Info),
            0x1654AE6Bu64 => Ok(EbmlId::Tracks),
            0x18538067u64 => Ok(EbmlId::Segment),
            0x1941A469u64 => Ok(EbmlId::Attachments),
            0x1A45DFA3u64 => Ok(EbmlId::EbmlHeader),
            0x1C53BB6Bu64 => Ok(EbmlId::Cues),
            0x1F43B675u64 => Ok(EbmlId::Cluster),
            _ => Err(MatroskaError::InvalidID(id)),
        }
    }

    /// The payload type the schema assigns to this element.
    pub open spec fn spec_type(self) -> ElementType {
        match self {
            EbmlId::ChapterDisplay => ElementType::Struct,
            EbmlId::TrackType => ElementType::UInteger,
            EbmlId::ChapString => ElementType::Utf8,
            EbmlId::CodecId => ElementType::String,
            EbmlId::FlagDefault => ElementType::UInteger,
            EbmlId::ChapterTrackUid => ElementType::UInteger,
            EbmlId::Slices => ElementType::Struct,
            EbmlId::ChapterTrack => ElementType::Struct,
            EbmlId::ChapterTimeStart => ElementType::UInteger,
            EbmlId::ChapterTimeEnd => ElementType::UInteger,
            EbmlId::CueRefTime => ElementType::UInteger,
            EbmlId::CueRefCluster => ElementType::UInteger,
            EbmlId::ChapterFlagHidden => ElementType::UInteger,
            EbmlId::FlagInterlaced => ElementType::UInteger,
            EbmlId::BlockDuration => ElementType::UInteger,
            EbmlId::FlagLacing => ElementType::UInteger,
            EbmlId::FieldOrder => ElementType::UInteger,
            EbmlId::Channels => ElementType::UInteger,
            EbmlId::BlockGroup => ElementType::Struct,
            EbmlId::Block => ElementType::Binary,
            EbmlId::BlockVirtual => ElementType::Binary,
            EbmlId::SimpleBlock => ElementType::Binary,
            EbmlId::CodecState => ElementType::Binary,
            EbmlId::BlockAdditional => ElementType::Binary,
            EbmlId::BlockMore => ElementType::Struct,
            EbmlId::Position => ElementType::UInteger,
            EbmlId::CodecDecodeAll => ElementType::UInteger,
            EbmlId::PrevSize => ElementType::UInteger,
            EbmlId::TrackEntry => ElementType::Struct,
            EbmlId::EncryptedBlock => ElementType::Binary,
            EbmlId::PixelWidth => ElementType::UInteger,
            EbmlId::CueDuration => ElementType::UInteger,
            EbmlId::CueTime => ElementType::UInteger,
            EbmlId::SamplingFrequency => ElementType::Float,
            EbmlId::ChapterAtom => ElementType::Struct,
            EbmlId::CueTrackPositions => ElementType::Struct,
            EbmlId::FlagEnabled => ElementType::UInteger,
            EbmlId::PixelHeight => ElementType::UInteger,
            EbmlId::CuePoint => ElementType::Struct,
            EbmlId::Crc32 => ElementType::Binary,
            EbmlId::TrickTrackUid => ElementType::UInteger,
            EbmlId::TrickTrackSegmentUid => ElementType::Binary,
            EbmlId::TrickStructTrackSegmentUid => ElementType::Binary,
            EbmlId::TrickTrackFlag => ElementType::UInteger,
            EbmlId::TrickStructTrackUid => ElementType::UInteger,
            EbmlId::ReferenceFrame => ElementType::Struct,
            EbmlId::ReferenceOffset => ElementType::UInteger,
            EbmlId::ReferenceTimestamp => ElementType::UInteger,
            EbmlId::BlockAdditionId => ElementType::UInteger,
            EbmlId::LaceNumber => ElementType::UInteger,
            EbmlId::FrameNumber => ElementType::UInteger,
            EbmlId::Delay => ElementType::UInteger,
            EbmlId::SliceDuration => ElementType::UInteger,
            EbmlId::TrackNumber => ElementType::UInteger,
            EbmlId::CueReference => ElementType::Struct,
            EbmlId::Video => ElementType::Struct,
            EbmlId::Audio => ElementType::Struct,
            EbmlId::TrackOperation => ElementType::Struct,
            EbmlId::TrackCombinePlanes => ElementType::Struct,
            EbmlId::TrackPlane => ElementType::Struct,
            EbmlId::TrackPlaneUid => ElementType::UInteger,
            EbmlId::TrackPlaneType => ElementType::UInteger,
            EbmlId::Timestamp => ElementType::UInteger,
            EbmlId::TimeSlice => ElementType::Struct,
            EbmlId::TrackJoinBlocks => ElementType::Struct,
            EbmlId::CueCodecState => ElementType::UInteger,
            EbmlId::CueRefCodecState => ElementType::UInteger,
            EbmlId::Void => ElementType::Binary,
            EbmlId::TrackJoinUid => ElementType::UInteger,
            EbmlId::BlockAddId => ElementType::UInteger,
            EbmlId::CueRelativePosition => ElementType::UInteger,
            EbmlId::CueClusterPosition => ElementType::UInteger,
            EbmlId::CueTrack => ElementType::UInteger,
            EbmlId::ReferencePriority => ElementType::UInteger,
            EbmlId::ReferenceBlock => ElementType::Integer,
            EbmlId::ReferenceVirtual => ElementType::Integer,
            EbmlId::BlockAddIdName => ElementType::String,
            EbmlId::BlockAdditionMapping => ElementType::Struct,
            EbmlId::BlockAddIdType => ElementType::UInteger,
            EbmlId::BlockAddIdExtraData => ElementType::Binary,
            EbmlId::BlockAddIdValue => ElementType::UInteger,
            EbmlId::ContentCompAlgo => ElementType::UInteger,
            EbmlId::ContentCompSettings => ElementType::Binary,
            EbmlId::DocTypeExtension => ElementType::Struct,
            EbmlId::DocType => ElementType::Utf8,
            EbmlId::DocTypeExtensionName => ElementType::Utf8,
            EbmlId::DocTypeExtensionVersion => ElementType::UInteger,
            EbmlId::DocTypeReadVersion => ElementType::UInteger,
            EbmlId::Version => ElementType::UInteger,
            EbmlId::DocTypeVersion => ElementType::UInteger,
            EbmlId::EbmlMaxIdLength => ElementType::UInteger,
            EbmlId::EbmlMaxSizeLength => ElementType::UInteger,
            EbmlId::ReadVersion => ElementType::UInteger,
            EbmlId::ChapLanguage => ElementType::String,
            EbmlId::ChapLanguageBcp47 => ElementType::String,
            EbmlId::ChapCountry => ElementType::String,
            EbmlId::SegmentFamily => ElementType::Binary,
            EbmlId::DateUtc => ElementType::Date,
            EbmlId::TagLanguage => ElementType::String,
            EbmlId::TagLanguageBcp47 => ElementType::String,
            EbmlId::TagDefault => ElementType::UInteger,
            EbmlId::TagBinary => ElementType::Binary,
            EbmlId::TagString => ElementType::Utf8,
            EbmlId::Duration => ElementType::Float,
            EbmlId::TagDefaultBogus => ElementType::UInteger,
            EbmlId::ChapProcessPrivate => ElementType::Binary,
            EbmlId::EditionDisplay => ElementType::Struct,
            EbmlId::EditionString => ElementType::Utf8,
            EbmlId::ChapterSkipType => ElementType::UInteger,
            EbmlId::ChapterFlagEnabled => ElementType::UInteger,
            EbmlId::TagName => ElementType::Utf8,
            EbmlId::EditionEntry => ElementType::Struct,
            EbmlId::EditionUid => ElementType::UInteger,
            EbmlId::EditionFlagHidden => ElementType::UInteger,
            EbmlId::EditionFlagDefault => ElementType::UInteger,
            EbmlId::EditionFlagOrdered => ElementType::UInteger,
            EbmlId::EditionLanguageIetf => ElementType::String,
            EbmlId::FileData => ElementType::Binary,
            EbmlId::FileMediaType => ElementType::String,
            EbmlId::FileUsedStartTime => ElementType::UInteger,
            EbmlId::FileUsedEndTime => ElementType::UInteger,
            EbmlId::FileName => ElementType::Utf8,
            EbmlId::FileReferral => ElementType::Binary,
            EbmlId::FileDescription => ElementType::Utf8,
            EbmlId::FileUid => ElementType::UInteger,
            EbmlId::ContentEncAlgo => ElementType::UInteger,
            EbmlId::ContentEncKeyId => ElementType::Binary,
            EbmlId::ContentSignature => ElementType::Binary,
            EbmlId::ContentSigKeyId => ElementType::Binary,
            EbmlId::ContentSigAlgo => ElementType::UInteger,
            EbmlId::ContentSigHashAlgo => ElementType::UInteger,
            EbmlId::ContentEncAesSettings => ElementType::Struct,
            EbmlId::AesSettingsCipherMode => ElementType::UInteger,
            EbmlId::MuxingApp => ElementType::Utf8,
            EbmlId::Seek => ElementType::Struct,
            EbmlId::ContentEncodingOrder => ElementType::UInteger,
            EbmlId::ContentEncodingScope => ElementType::UInteger,
            EbmlId::ContentEncodingType => ElementType::UInteger,
            EbmlId::ContentCompression => ElementType::Struct,
            EbmlId::ContentEncryption => ElementType::Struct,
            EbmlId::Emphasis => ElementType::UInteger,
            EbmlId::CueRefNumber => ElementType::UInteger,
            EbmlId::Name => ElementType::Utf8,
            EbmlId::CueBlockNumber => ElementType::UInteger,
            EbmlId::TrackOffset => ElementType::Integer,
            EbmlId::SeekId => ElementType::Binary,
            EbmlId::SeekPosition => ElementType::UInteger,
            EbmlId::StereoMode => ElementType::UInteger,
            EbmlId::OldStereoMode => ElementType::UInteger,
            EbmlId::AlphaMode => ElementType::UInteger,
            EbmlId::PixelCropBottom => ElementType::UInteger,
            EbmlId::DisplayWidth => ElementType::UInteger,
            EbmlId::DisplayUnit => ElementType::UInteger,
            EbmlId::AspectRatioType => ElementType::UInteger,
            EbmlId::DisplayHeight => ElementType::UInteger,
            EbmlId::PixelCropTop => ElementType::UInteger,
            EbmlId::PixelCropLeft => ElementType::UInteger,
            EbmlId::PixelCropRight => ElementType::UInteger,
            EbmlId::FlagForced => ElementType::UInteger,
            EbmlId::FlagHearingImpaired => ElementType::UInteger,
            EbmlId::FlagVisualImpaired => ElementType::UInteger,
            EbmlId::FlagTextDescriptions => ElementType::UInteger,
            EbmlId::FlagOriginal => ElementType::UInteger,
            EbmlId::FlagCommentary => ElementType::UInteger,
            EbmlId::Colour => ElementType::Struct,
            EbmlId::MatrixCoefficients => ElementType::UInteger,
            EbmlId::BitsPerChannel => ElementType::UInteger,
            EbmlId::ChromaSubsamplingHorz => ElementType::UInteger,
            EbmlId::ChromaSubsamplingVert => ElementType::UInteger,
            EbmlId::CbSubsamplingHorz => ElementType::UInteger,
            EbmlId::CbSubsamplingVert => ElementType::UInteger,
            EbmlId::ChromaSitingHorz => ElementType::UInteger,
            EbmlId::ChromaSitingVert => ElementType::UInteger,
            EbmlId::Range => ElementType::UInteger,
            EbmlId::TransferCharacteristics => ElementType::UInteger,
            EbmlId::Primaries => ElementType::UInteger,
            EbmlId::MaxCll => ElementType::UInteger,
            EbmlId::MaxFall => ElementType::UInteger,
            EbmlId::StructingMetadata => ElementType::Struct,
            EbmlId::PrimaryRChromaticityX => ElementType::Float,
            EbmlId::PrimaryRChromaticityY => ElementType::Float,
            EbmlId::PrimaryGChromaticityX => ElementType::Float,
            EbmlId::PrimaryGChromaticityY => ElementType::Float,
            EbmlId::PrimaryBChromaticityX => ElementType::Float,
            EbmlId::PrimaryBChromaticityY => ElementType::Float,
            EbmlId::WhitePointChromaticityX => ElementType::Float,
            EbmlId::WhitePointChromaticityY => ElementType::Float,
            EbmlId::LuminanceMax => ElementType::Float,
            EbmlId::LuminanceMin => ElementType::Float,
            EbmlId::MaxBlockAdditionId => ElementType::UInteger,
            EbmlId::ChapterStringUid => ElementType::Utf8,
            EbmlId::CodecDelay => ElementType::UInteger,
            EbmlId::SeekPreRoll => ElementType::UInteger,
            EbmlId::WritingApp => ElementType::Utf8,
            EbmlId::SilentTracks => ElementType::Struct,
            EbmlId::SilentTrackNumber => ElementType::UInteger,
            EbmlId::AttachedFile => ElementType::Struct,
            EbmlId::ContentEncoding => ElementType::Struct,
            EbmlId::BitDepth => ElementType::UInteger,
            EbmlId::CodecPrivate => ElementType::Binary,
            EbmlId::Targets => ElementType::Struct,
            EbmlId::ChapterPhysicalEquiv => ElementType::UInteger,
            EbmlId::TagChapterUid => ElementType::UInteger,
            EbmlId::TagTrackUid => ElementType::UInteger,
            EbmlId::TagAttachmentUid => ElementType::UInteger,
            EbmlId::TagEditionUid => ElementType::UInteger,
            EbmlId::TargetType => ElementType::String,
            EbmlId::TrackTranslate => ElementType::Struct,
            EbmlId::TrackTranslateTrackId => ElementType::Binary,
            EbmlId::TrackTranslateCodec => ElementType::UInteger,
            EbmlId::TrackTranslateEditionUid => ElementType::UInteger,
            EbmlId::SimpleTag => ElementType::Struct,
            EbmlId::TargetTypeValue => ElementType::UInteger,
            EbmlId::ChapProcessCommand => ElementType::Struct,
            EbmlId::ChapProcessTime => ElementType::UInteger,
            EbmlId::ChapterTranslate => ElementType::Struct,
            EbmlId::ChapProcessData => ElementType::Binary,
            EbmlId::ChapProcess => ElementType::Struct,
            EbmlId::ChapProcessCodecId => ElementType::UInteger,
            EbmlId::ChapterTranslateId => ElementType::Binary,
            EbmlId::ChapterTranslateCodec => ElementType::UInteger,
            EbmlId::ChapterTranslateEditionUid => ElementType::UInteger,
            EbmlId::ContentEncodings => ElementType::Struct,
            EbmlId::MinCache => ElementType::UInteger,
            EbmlId::MaxCache => ElementType::UInteger,
            EbmlId::ChapterSegmentUuid => ElementType::Binary,
            EbmlId::ChapterSegmentEditionUid => ElementType::UInteger,
            EbmlId::TrackOverlay => ElementType::UInteger,
            EbmlId::Tag => ElementType::Struct,
            EbmlId::SegmentFilename => ElementType::Utf8,
            EbmlId::SegmentUuid => ElementType::Binary,
            EbmlId::ChapterUid => ElementType::UInteger,
            EbmlId::TrackUid => ElementType::UInteger,
            EbmlId::AttachmentLink => ElementType::UInteger,
            EbmlId::BlockAdditions => ElementType::Struct,
            EbmlId::DiscardPadding => ElementType::Integer,
            EbmlId::Projection => ElementType::Struct,
            EbmlId::ProjectionType => ElementType::UInteger,
            EbmlId::ProjectionPrivate => ElementType::Binary,
            EbmlId::ProjectionPoseYaw => ElementType::Float,
            EbmlId::ProjectionPosePitch => ElementType::Float,
            EbmlId::ProjectionPoseRoll => ElementType::Float,
            EbmlId::OutputSamplingFrequency => ElementType::Float,
            EbmlId::Title => ElementType::Utf8,
            EbmlId::ChannelPositions => ElementType::Binary,
            EbmlId::Language => ElementType::String,
            EbmlId::LanguageBcp47 => ElementType::String,
            EbmlId::TrackTimestampScale => ElementType::Float,
            EbmlId::DefaultDecodedFieldDuration => ElementType::UInteger,
            EbmlId::FrameRate => ElementType::Float,
            EbmlId::DefaultDuration => ElementType::UInteger,
            EbmlId::CodecName => ElementType::Utf8,
            EbmlId::CodecDownloadUrl => ElementType::String,
            EbmlId::TimestampScale => ElementType::UInteger,
            EbmlId::UncompressedFourCc => ElementType::Binary,
            EbmlId::GammaValue => ElementType::Float,
            EbmlId::CodecSettings => ElementType::Utf8,
            EbmlId::CodecInfoUrl => ElementType::String,
            EbmlId::PrevFilename => ElementType::Utf8,
            EbmlId::PrevUuid => ElementType::Binary,
            EbmlId::NextFilename => ElementType::Utf8,
            EbmlId::NextUuid => ElementType::Binary,
            EbmlId::Chapters => ElementType::Struct,
            EbmlId::SeekHead => ElementType::Struct,
            EbmlId::Tags => ElementType::Struct,
            EbmlId::Info => ElementType::Struct,
            EbmlId::Tracks => ElementType::Struct,
            EbmlId::Segment => ElementType::Struct,
            EbmlId::Attachments => ElementType::Struct,
            EbmlId::EbmlHeader => ElementType::Struct,
            EbmlId::Cues => ElementType::Struct,
            EbmlId::Cluster => ElementType::Struct,
        }
    }

    /// The payload type the schema assigns to this element.
    pub fn type_(&self) -> (r: ElementType)
        ensures
            r == self.spec_type(),
    {
        match self {
            EbmlId::ChapterDisplay => ElementType::Struct,
            EbmlId::TrackType => ElementType::UInteger,
            EbmlId::ChapString => ElementType::Utf8,
            EbmlId::CodecId => ElementType::String,
            EbmlId::FlagDefault => ElementType::UInteger,
            EbmlId::ChapterTrackUid => ElementType::UInteger,
            EbmlId::Slices => ElementType::Struct,
            EbmlId::ChapterTrack => ElementType::Struct,
            EbmlId::ChapterTimeStart => ElementType::UInteger,
            EbmlId::ChapterTimeEnd => ElementType::UInteger,
            EbmlId::CueRefTime => ElementType::UInteger,
            EbmlId::CueRefCluster => ElementType::UInteger,
            EbmlId::ChapterFlagHidden => ElementType::UInteger,
            EbmlId::FlagInterlaced => ElementType::UInteger,
            EbmlId::BlockDuration => ElementType::UInteger,
            EbmlId::FlagLacing => ElementType::UInteger,
            EbmlId::FieldOrder => ElementType::UInteger,
            EbmlId::Channels => ElementType::UInteger,
            EbmlId::BlockGroup => ElementType::Struct,
            EbmlId::Block => ElementType::Binary,
            EbmlId::BlockVirtual => ElementType::Binary,
            EbmlId::SimpleBlock => ElementType::Binary,
            EbmlId::CodecState => ElementType::Binary,
            EbmlId::BlockAdditional => ElementType::Binary,
            EbmlId::BlockMore => ElementType::Struct,
            EbmlId::Position => ElementType::UInteger,
            EbmlId::CodecDecodeAll => ElementType::UInteger,
            EbmlId::PrevSize => ElementType::UInteger,
            EbmlId::TrackEntry => ElementType::Struct,
            EbmlId::EncryptedBlock => ElementType::Binary,
            EbmlId::PixelWidth => ElementType::UInteger,
            EbmlId::CueDuration => ElementType::UInteger,
            EbmlId::CueTime => ElementType::UInteger,
            EbmlId::SamplingFrequency => ElementType::Float,
            EbmlId::ChapterAtom => ElementType::Struct,
            EbmlId::CueTrackPositions => ElementType::Struct,
            EbmlId::FlagEnabled => ElementType::UInteger,
            EbmlId::PixelHeight => ElementType::UInteger,
            EbmlId::CuePoint => ElementType::Struct,
            EbmlId::Crc32 => ElementType::Binary,
            EbmlId::TrickTrackUid => ElementType::UInteger,
            EbmlId::TrickTrackSegmentUid => ElementType::Binary,
            EbmlId::TrickStructTrackSegmentUid => ElementType::Binary,
            EbmlId::TrickTrackFlag => ElementType::UInteger,
            EbmlId::TrickStructTrackUid => ElementType::UInteger,
            EbmlId::ReferenceFrame => ElementType::Struct,
            EbmlId::ReferenceOffset => ElementType::UInteger,
            EbmlId::ReferenceTimestamp => ElementType::UInteger,
            EbmlId::BlockAdditionId => ElementType::UInteger,
            EbmlId::LaceNumber => ElementType::UInteger,
            EbmlId::FrameNumber => ElementType::UInteger,
            EbmlId::Delay => ElementType::UInteger,
            EbmlId::SliceDuration => ElementType::UInteger,
            EbmlId::TrackNumber => ElementType::UInteger,
            EbmlId::CueReference => ElementType::Struct,
            EbmlId::Video => ElementType::Struct,
            EbmlId::Audio => ElementType::Struct,
            EbmlId::TrackOperation => ElementType::Struct,
            EbmlId::TrackCombinePlanes => ElementType::Struct,
            EbmlId::TrackPlane => ElementType::Struct,
            EbmlId::TrackPlaneUid => ElementType::UInteger,
            EbmlId::TrackPlaneType => ElementType::UInteger,
            EbmlId::Timestamp => ElementType::UInteger,
            EbmlId::TimeSlice => ElementType::Struct,
            EbmlId::TrackJoinBlocks => ElementType::Struct,
            EbmlId::CueCodecState => ElementType::UInteger,
            EbmlId::CueRefCodecState => ElementType::UInteger,
            EbmlId::Void => ElementType::Binary,
            EbmlId::TrackJoinUid => ElementType::UInteger,
            EbmlId::BlockAddId => ElementType::UInteger,
            EbmlId::CueRelativePosition => ElementType::UInteger,
            EbmlId::CueClusterPosition => ElementType::UInteger,
            EbmlId::CueTrack => ElementType::UInteger,
            EbmlId::ReferencePriority => ElementType::UInteger,
            EbmlId::ReferenceBlock => ElementType::Integer,
            EbmlId::ReferenceVirtual => ElementType::Integer,
            EbmlId::BlockAddIdName => ElementType::String,
            EbmlId::BlockAdditionMapping => ElementType::Struct,
            EbmlId::BlockAddIdType => ElementType::UInteger,
            EbmlId::BlockAddIdExtraData => ElementType::Binary,
            EbmlId::BlockAddIdValue => ElementType::UInteger,
            EbmlId::ContentCompAlgo => ElementType::UInteger,
            EbmlId::ContentCompSettings => ElementType::Binary,
            EbmlId::DocTypeExtension => ElementType::Struct,
            EbmlId::DocType => ElementType::Utf8,
            EbmlId::DocTypeExtensionName => ElementType::Utf8,
            EbmlId::DocTypeExtensionVersion => ElementType::UInteger,
            EbmlId::DocTypeReadVersion => ElementType::UInteger,
            EbmlId::Version => ElementType::UInteger,
            EbmlId::DocTypeVersion => ElementType::UInteger,
            EbmlId::EbmlMaxIdLength => ElementType::UInteger,
            EbmlId::EbmlMaxSizeLength => ElementType::UInteger,
            EbmlId::ReadVersion => ElementType::UInteger,
            EbmlId::ChapLanguage => ElementType::String,
            EbmlId::ChapLanguageBcp47 => ElementType::String,
            EbmlId::ChapCountry => ElementType::String,
            EbmlId::SegmentFamily => ElementType::Binary,
            EbmlId::DateUtc => ElementType::Date,
            EbmlId::TagLanguage => ElementType::String,
            EbmlId::TagLanguageBcp47 => ElementType::String,
            EbmlId::TagDefault => ElementType::UInteger,
            EbmlId::TagBinary => ElementType::Binary,
            EbmlId::TagString => ElementType::Utf8,
            EbmlId::Duration => ElementType::Float,
            EbmlId::TagDefaultBogus => ElementType::UInteger,
            EbmlId::ChapProcessPrivate => ElementType::Binary,
            EbmlId::EditionDisplay => ElementType::Struct,
            EbmlId::EditionString => ElementType::Utf8,
            EbmlId::ChapterSkipType => ElementType::UInteger,
            EbmlId::ChapterFlagEnabled => ElementType::UInteger,
            EbmlId::TagName => ElementType::Utf8,
            EbmlId::EditionEntry => ElementType::Struct,
            EbmlId::EditionUid => ElementType::UInteger,
            EbmlId::EditionFlagHidden => ElementType::UInteger,
            EbmlId::EditionFlagDefault => ElementType::UInteger,
            EbmlId::EditionFlagOrdered => ElementType::UInteger,
            EbmlId::EditionLanguageIetf => ElementType::String,
            EbmlId::FileData => ElementType::Binary,
            EbmlId::FileMediaType => ElementType::String,
            EbmlId::FileUsedStartTime => ElementType::UInteger,
            EbmlId::FileUsedEndTime => ElementType::UInteger,
            EbmlId::FileName => ElementType::Utf8,
            EbmlId::FileReferral => ElementType::Binary,
            EbmlId::FileDescription => ElementType::Utf8,
            EbmlId::FileUid => ElementType::UInteger,
            EbmlId::ContentEncAlgo => ElementType::UInteger,
            EbmlId::ContentEncKeyId => ElementType::Binary,
            EbmlId::ContentSignature => ElementType::Binary,
            EbmlId::ContentSigKeyId => ElementType::Binary,
            EbmlId::ContentSigAlgo => ElementType::UInteger,
            EbmlId::ContentSigHashAlgo => ElementType::UInteger,
            EbmlId::ContentEncAesSettings => ElementType::Struct,
            EbmlId::AesSettingsCipherMode => ElementType::UInteger,
            EbmlId::MuxingApp => ElementType::Utf8,
            EbmlId::Seek => ElementType::Struct,
            EbmlId::ContentEncodingOrder => ElementType::UInteger,
            EbmlId::ContentEncodingScope => ElementType::UInteger,
            EbmlId::ContentEncodingType => ElementType::UInteger,
            EbmlId::ContentCompression => ElementType::Struct,
            EbmlId::ContentEncryption => ElementType::Struct,
            EbmlId::Emphasis => ElementType::UInteger,
            EbmlId::CueRefNumber => ElementType::UInteger,
            EbmlId::Name => ElementType::Utf8,
            EbmlId::CueBlockNumber => ElementType::UInteger,
            EbmlId::TrackOffset => ElementType::Integer,
            EbmlId::SeekId => ElementType::Binary,
            EbmlId::SeekPosition => ElementType::UInteger,
            EbmlId::StereoMode => ElementType::UInteger,
            EbmlId::OldStereoMode => ElementType::UInteger,
            EbmlId::AlphaMode => ElementType::UInteger,
            EbmlId::PixelCropBottom => ElementType::UInteger,
            EbmlId::DisplayWidth => ElementType::UInteger,
            EbmlId::DisplayUnit => ElementType::UInteger,
            EbmlId::AspectRatioType => ElementType::UInteger,
            EbmlId::DisplayHeight => ElementType::UInteger,
            EbmlId::PixelCropTop => ElementType::UInteger,
            EbmlId::PixelCropLeft => ElementType::UInteger,
            EbmlId::PixelCropRight => ElementType::UInteger,
            EbmlId::FlagForced => ElementType::UInteger,
            EbmlId::FlagHearingImpaired => ElementType::UInteger,
            EbmlId::FlagVisualImpaired => ElementType::UInteger,
            EbmlId::FlagTextDescriptions => ElementType::UInteger,
            EbmlId::FlagOriginal => ElementType::UInteger,
            EbmlId::FlagCommentary => ElementType::UInteger,
            EbmlId::Colour => ElementType::Struct,
            EbmlId::MatrixCoefficients => ElementType::UInteger,
            EbmlId::BitsPerChannel => ElementType::UInteger,
            EbmlId::ChromaSubsamplingHorz => ElementType::UInteger,
            EbmlId::ChromaSubsamplingVert => ElementType::UInteger,
            EbmlId::CbSubsamplingHorz => ElementType::UInteger,
            EbmlId::CbSubsamplingVert => ElementType::UInteger,
            EbmlId::ChromaSitingHorz => ElementType::UInteger,
            EbmlId::ChromaSitingVert => ElementType::UInteger,
            EbmlId::Range => ElementType::UInteger,
            EbmlId::TransferCharacteristics => ElementType::UInteger,
            EbmlId::Primaries => ElementType::UInteger,
            EbmlId::MaxCll => ElementType::UInteger,
            EbmlId::MaxFall => ElementType::UInteger,
            EbmlId::StructingMetadata => ElementType::Struct,
            EbmlId::PrimaryRChromaticityX => ElementType::Float,
            EbmlId::PrimaryRChromaticityY => ElementType::Float,
            EbmlId::PrimaryGChromaticityX => ElementType::Float,
            EbmlId::PrimaryGChromaticityY => ElementType::Float,
            EbmlId::PrimaryBChromaticityX => ElementType::Float,
            EbmlId::PrimaryBChromaticityY => ElementType::Float,
            EbmlId::WhitePointChromaticityX => ElementType::Float,
            EbmlId::WhitePointChromaticityY => ElementType::Float,
            EbmlId::LuminanceMax => ElementType::Float,
            EbmlId::LuminanceMin => ElementType::Float,
            EbmlId::MaxBlockAdditionId => ElementType::UInteger,
            EbmlId::ChapterStringUid => ElementType::Utf8,
            EbmlId::CodecDelay => ElementType::UInteger,
            EbmlId::SeekPreRoll => ElementType::UInteger,
            EbmlId::WritingApp => ElementType::Utf8,
            EbmlId::SilentTracks => ElementType::Struct,
            EbmlId::SilentTrackNumber => ElementType::UInteger,
            EbmlId::AttachedFile => ElementType::Struct,
            EbmlId::ContentEncoding => ElementType::Struct,
            EbmlId::BitDepth => ElementType::UInteger,
            EbmlId::CodecPrivate => ElementType::Binary,
            EbmlId::Targets => ElementType::Struct,
            EbmlId::ChapterPhysicalEquiv => ElementType::UInteger,
            EbmlId::TagChapterUid => ElementType::UInteger,
            EbmlId::TagTrackUid => ElementType::UInteger,
            EbmlId::TagAttachmentUid => ElementType::UInteger,
            EbmlId::TagEditionUid => ElementType::UInteger,
            EbmlId::TargetType => ElementType::String,
            EbmlId::TrackTranslate => ElementType::Struct,
            EbmlId::TrackTranslateTrackId => ElementType::Binary,
            EbmlId::TrackTranslateCodec => ElementType::UInteger,
            EbmlId::TrackTranslateEditionUid => ElementType::UInteger,
            EbmlId::SimpleTag => ElementType::Struct,
            EbmlId::TargetTypeValue => ElementType::UInteger,
            EbmlId::ChapProcessCommand => ElementType::Struct,
            EbmlId::ChapProcessTime => ElementType::UInteger,
            EbmlId::ChapterTranslate => ElementType::Struct,
            EbmlId::ChapProcessData => ElementType::Binary,
            EbmlId::ChapProcess => ElementType::Struct,
            EbmlId::ChapProcessCodecId => ElementType::UInteger,
            EbmlId::ChapterTranslateId => ElementType::Binary,
            EbmlId::ChapterTranslateCodec => ElementType::UInteger,
            EbmlId::ChapterTranslateEditionUid => ElementType::UInteger,
            EbmlId::ContentEncodings => ElementType::Struct,
            EbmlId::MinCache => ElementType::UInteger,
            EbmlId::MaxCache => ElementType::UInteger,
            EbmlId::ChapterSegmentUuid => ElementType::Binary,
            EbmlId::ChapterSegmentEditionUid => ElementType::UInteger,
            EbmlId::TrackOverlay => ElementType::UInteger,
            EbmlId::Tag => ElementType::Struct,
            EbmlId::SegmentFilename => ElementType::Utf8,
            EbmlId::SegmentUuid => ElementType::Binary,
            EbmlId::ChapterUid => ElementType::UInteger,
            EbmlId::TrackUid => ElementType::UInteger,
            EbmlId::AttachmentLink => ElementType::UInteger,
            EbmlId::BlockAdditions => ElementType::Struct,
            EbmlId::DiscardPadding => ElementType::Integer,
            EbmlId::Projection => ElementType::Struct,
            EbmlId::ProjectionType => ElementType::UInteger,
            EbmlId::ProjectionPrivate => ElementType::Binary,
            EbmlId::ProjectionPoseYaw => ElementType::Float,
            EbmlId::ProjectionPosePitch => ElementType::Float,
            EbmlId::ProjectionPoseRoll => ElementType::Float,
            EbmlId::OutputSamplingFrequency => ElementType::Float,
            EbmlId::Title => ElementType::Utf8,
            EbmlId::ChannelPositions => ElementType::Binary,
            EbmlId::Language => ElementType::String,
            EbmlId::LanguageBcp47 => ElementType::String,
            EbmlId::TrackTimestampScale => ElementType::Float,
            EbmlId::DefaultDecodedFieldDuration => ElementType::UInteger,
            EbmlId::FrameRate => ElementType::Float,
            EbmlId::DefaultDuration => ElementType::UInteger,
            EbmlId::CodecName => ElementType::Utf8,
            EbmlId::CodecDownloadUrl => ElementType::String,
            EbmlId::TimestampScale => ElementType::UInteger,
            EbmlId::UncompressedFourCc => ElementType::Binary,
            EbmlId::GammaValue => ElementType::Float,
            EbmlId::CodecSettings => ElementType::Utf8,
            EbmlId::CodecInfoUrl => ElementType::String,
            EbmlId::PrevFilename => ElementType::Utf8,
            EbmlId::PrevUuid => ElementType::Binary,
            EbmlId::NextFilename => ElementType::Utf8,
            EbmlId::NextUuid => ElementType::Binary,
            EbmlId::Chapters => ElementType::Struct,
            EbmlId::SeekHead => ElementType::Struct,
            EbmlId::Tags => ElementType::Struct,
            EbmlId::Info => ElementType::Struct,
            EbmlId::Tracks => ElementType::Struct,
            EbmlId::Segment => ElementType::Struct,
            EbmlId::Attachments => ElementType::Struct,
            EbmlId::EbmlHeader => ElementType::Struct,
            EbmlId::Cues => ElementType::Struct,
            EbmlId::Cluster => ElementType::Struct,
        }
    }

    /// Whether the schema lets this element carry an unknown size.
    pub open spec fn spec_unknown_size_allowed(self) -> bool {
        self == EbmlId::Segment || self == EbmlId::Cluster
    }

    /// Whether the schema lets this element carry an unknown size.
    pub fn unknown_size_allowed(&self) -> (r: bool)
        ensures
            r == self.spec_unknown_size_allowed(),
    {
        match self {
            EbmlId::Segment => true,
            EbmlId::Cluster => true,
            _ => false,
        }
    }
}

} // verus!
