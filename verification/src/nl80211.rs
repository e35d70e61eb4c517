//! The nl80211 vocabulary: commands, attributes and enumerations of the
//! kernel's WiFi configuration interface, each with its code on the wire.
//!
//! A code that the vocabulary does not name is kept as `UnrecognizedConst`,
//! so that converting a code to a value and back gives the code again.

use vstd::prelude::*;
use vstd::std_specs::convert::FromSpecImpl;

verus! {

/// The kernel's `nl80211_commands` enumeration.
#[derive(Clone, Copy, Debug, PartialEq, Eq, PartialOrd, Ord, Hash, Structural)]
pub enum Nl80211Cmd {
    Unspec,
    GetWiphy,
    SetWiphy,
    NewWiphy,
    DelWiphy,
    GetInterface,
    SetInterface,
    NewInterface,
    DelInterface,
    GetKey,
    SetKey,
    NewKey,
    DelKey,
    GetBeacon,
    SetBeacon,
    StartAp,
    NewBeacon,
    StopAp,
    DelBeacon,
    GetStation,
    SetStation,
    NewStation,
    DelStation,
    GetMpath,
    SetMpath,
    NewMpath,
    DelMpath,
    SetBss,
    SetReg,
    ReqSetReg,
    GetMeshConfig,
    SetMeshConfig,
    SetMgmtExtraIe,
    GetReg,
    GetScan,
    TriggerScan,
    NewScanResults,
    ScanAborted,
    RegChange,
    Authenticate,
    Associate,
    Deauthenticate,
    Disassociate,
    MichaelMicFailure,
    RegBeaconHint,
    JoinIbss,
    LeaveIbss,
    Testmode,
    Connect,
    Roam,
    Disconnect,
    SetWiphyNetns,
    GetSurvey,
    NewSurveyResults,
    SetPmksa,
    DelPmksa,
    FlushPmksa,
    RemainOnChannel,
    CancelRemainOnChannel,
    SetTxBitrateMask,
    RegisterFrame,
    RegisterAction,
    Frame,
    Action,
    FrameTxStatus,
    ActionTxStatus,
    SetPowerSave,
    GetPowerSave,
    SetCqm,
    NotifyCqm,
    SetChannel,
    SetWdsPeer,
    FrameWaitCancel,
    JoinMesh,
    LeaveMesh,
    UnprotDeauthenticate,
    UnprotDisassociate,
    NewPeerCandidate,
    GetWowlan,
    SetWowlan,
    StartSchedScan,
    StopSchedScan,
    SchedScanResults,
    SchedScanStopped,
    SetRekeyOffload,
    PmksaCandidate,
    TdlsOper,
    TdlsMgmt,
    UnexpectedFrame,
    ProbeClient,
    RegisterBeacons,
    Unexpected4addrFrame,
    SetNoackMap,
    ChSwitchNotify,
    StartP2pDevice,
    StopP2pDevice,
    ConnFailed,
    SetMcastRate,
    SetMacAcl,
    RadarDetect,
    GetProtocolFeatures,
    UpdateFtIes,
    FtEvent,
    CritProtocolStart,
    CritProtocolStop,
    GetCoalesce,
    SetCoalesce,
    ChannelSwitch,
    Vendor,
    SetQosMap,
    AddTxTs,
    DelTxTs,
    GetMpp,
    JoinOcb,
    LeaveOcb,
    ChSwitchStartedNotify,
    TdlsChannelSwitch,
    TdlsCancelChannelSwitch,
    WiphyRegChange,
    AbortScan,
    StartNan,
    StopNan,
    AddNanFunction,
    DelNanFunction,
    ChangeNanConfig,
    NanMatch,
    SetMulticastToUnicast,
    UpdateConnectParams,
    SetPmk,
    DelPmk,
    PortAuthorized,
    ReloadRegdb,
    ExternalAuth,
    StaOpmodeChanged,
    ControlPortFrame,
    GetFtmResponderStats,
    PeerMeasurementStart,
    PeerMeasurementResult,
    PeerMeasurementComplete,
    NotifyRadar,
    UpdateOweInfo,
    ProbeMeshLink,
    SetTidConfig,
    UnprotBeacon,
    ControlPortFrameTxStatus,
    SetSarSpecs,
    ObssColorCollision,
    ColorChangeRequest,
    ColorChangeStarted,
    ColorChangeAborted,
    ColorChangeCompleted,
    SetFilsAad,
    AssocComeback,
    AfterLast,
    AttrMax,
    UnrecognizedConst(u8),
}

impl Nl80211Cmd {
    /// The value that a code stands for; where two names share a code, the
    /// first of them.
    pub open spec fn spec_from_code(code: u8) -> Self {
        match code {
            0 => Nl80211Cmd::Unspec,
            1 => Nl80211Cmd::GetWiphy,
            2 => Nl80211Cmd::SetWiphy,
            3 => Nl80211Cmd::NewWiphy,
            4 => Nl80211Cmd::DelWiphy,
            5 => Nl80211Cmd::GetInterface,
            6 => Nl80211Cmd::SetInterface,
            7 => Nl80211Cmd::NewInterface,
            8 => Nl80211Cmd::DelInterface,
            9 => Nl80211Cmd::GetKey,
            10 => Nl80211Cmd::SetKey,
            11 => Nl80211Cmd::NewKey,
            12 => Nl80211Cmd::DelKey,
            13 => Nl80211Cmd::GetBeacon,
            14 => Nl80211Cmd::SetBeacon,
            15 => Nl80211Cmd::StartAp,
            16 => Nl80211Cmd::StopAp,
            17 => Nl80211Cmd::GetStation,
            18 => Nl80211Cmd::SetStation,
            19 => Nl80211Cmd::NewStation,
            20 => Nl80211Cmd::DelStation,
            21 => Nl80211Cmd::GetMpath,
            22 => Nl80211Cmd::SetMpath,
            23 => Nl80211Cmd::NewMpath,
            24 => Nl80211Cmd::DelMpath,
            25 => Nl80211Cmd::SetBss,
            26 => Nl80211Cmd::SetReg,
            27 => Nl80211Cmd::ReqSetReg,
            28 => Nl80211Cmd::GetMeshConfig,
            29 => Nl80211Cmd::SetMeshConfig,
            30 => Nl80211Cmd::SetMgmtExtraIe,
            31 => Nl80211Cmd::GetReg,
            32 => Nl80211Cmd::GetScan,
            33 => Nl80211Cmd::TriggerScan,
            34 => Nl80211Cmd::NewScanResults,
            35 => Nl80211Cmd::ScanAborted,
            36 => Nl80211Cmd::RegChange,
            37 => Nl80211Cmd::Authenticate,
            38 => Nl80211Cmd::Associate,
            39 => Nl80211Cmd::Deauthenticate,
            40 => Nl80211Cmd::Disassociate,
            41 => Nl80211Cmd::MichaelMicFailure,
            42 => Nl80211Cmd::RegBeaconHint,
            43 => Nl80211Cmd::JoinIbss,
            44 => Nl80211Cmd::LeaveIbss,
            45 => Nl80211Cmd::Testmode,
            46 => Nl80211Cmd::Connect,
            47 => Nl80211Cmd::Roam,
            48 => Nl80211Cmd::Disconnect,
            49 => Nl80211Cmd::SetWiphyNetns,
            50 => Nl80211Cmd::GetSurvey,
            51 => Nl80211Cmd::NewSurveyResults,
            52 => Nl80211Cmd::SetPmksa,
            53 => Nl80211Cmd::DelPmksa,
            54 => Nl80211Cmd::FlushPmksa,
            55 => Nl80211Cmd::RemainOnChannel,
            56 => Nl80211Cmd::CancelRemainOnChannel,
            57 => Nl80211Cmd::SetTxBitrateMask,
            58 => Nl80211Cmd::RegisterFrame,
            59 => Nl80211Cmd::Frame,
            60 => Nl80211Cmd::FrameTxStatus,
            61 => Nl80211Cmd::SetPowerSave,
            62 => Nl80211Cmd::GetPowerSave,
            63 => Nl80211Cmd::SetCqm,
            64 => Nl80211Cmd::NotifyCqm,
            65 => Nl80211Cmd::SetChannel,
            66 => Nl80211Cmd::SetWdsPeer,
            67 => Nl80211Cmd::FrameWaitCancel,
            68 => Nl80211Cmd::JoinMesh,
            69 => Nl80211Cmd::LeaveMesh,
            70 => Nl80211Cmd::UnprotDeauthenticate,
            71 => Nl80211Cmd::UnprotDisassociate,
            72 => Nl80211Cmd::NewPeerCandidate,
            73 => Nl80211Cmd::GetWowlan,
            74 => Nl80211Cmd::SetWowlan,
            75 => Nl80211Cmd::StartSchedScan,
            76 => Nl80211Cmd::StopSchedScan,
            77 => Nl80211Cmd::SchedScanResults,
            78 => Nl80211Cmd::SchedScanStopped,
            79 => Nl80211Cmd::SetRekeyOffload,
            80 => Nl80211Cmd::PmksaCandidate,
            81 => Nl80211Cmd::TdlsOper,
            82 => Nl80211Cmd::TdlsMgmt,
            83 => Nl80211Cmd::UnexpectedFrame,
            84 => Nl80211Cmd::ProbeClient,
            85 => Nl80211Cmd::RegisterBeacons,
            86 => Nl80211Cmd::Unexpected4addrFrame,
            87 => Nl80211Cmd::SetNoackMap,
            88 => Nl80211Cmd::ChSwitchNotify,
            89 => Nl80211Cmd::StartP2pDevice,
            90 => Nl80211Cmd::StopP2pDevice,
            91 => Nl80211Cmd::ConnFailed,
            92 => Nl80211Cmd::SetMcastRate,
            93 => Nl80211Cmd::SetMacAcl,
            94 => Nl80211Cmd::RadarDetect,
            95 => Nl80211Cmd::GetProtocolFeatures,
            96 => Nl80211Cmd::UpdateFtIes,
            97 => Nl80211Cmd::FtEvent,
            98 => Nl80211Cmd::CritProtocolStart,
            99 => Nl80211Cmd::CritProtocolStop,
            100 => Nl80211Cmd::GetCoalesce,
            101 => Nl80211Cmd::SetCoalesce,
            102 => Nl80211Cmd::ChannelSwitch,
            103 => Nl80211Cmd::Vendor,
            104 => Nl80211Cmd::SetQosMap,
            105 => Nl80211Cmd::AddTxTs,
            106 => Nl80211Cmd::DelTxTs,
            107 => Nl80211Cmd::GetMpp,
            108 => Nl80211Cmd::JoinOcb,
            109 => Nl80211Cmd::LeaveOcb,
            110 => Nl80211Cmd::ChSwitchStartedNotify,
            111 => Nl80211Cmd::TdlsChannelSwitch,
            112 => Nl80211Cmd::TdlsCancelChannelSwitch,
            113 => Nl80211Cmd::WiphyRegChange,
            114 => Nl80211Cmd::AbortScan,
            115 => Nl80211Cmd::StartNan,
            116 => Nl80211Cmd::StopNan,
            117 => Nl80211Cmd::AddNanFunction,
            118 => Nl80211Cmd::DelNanFunction,
            119 => Nl80211Cmd::ChangeNanConfig,
            120 => Nl80211Cmd::NanMatch,
            121 => Nl80211Cmd::SetMulticastToUnicast,
            122 => Nl80211Cmd::UpdateConnectParams,
            123 => Nl80211Cmd::SetPmk,
            124 => Nl80211Cmd::DelPmk,
            125 => Nl80211Cmd::PortAuthorized,
            126 => Nl80211Cmd::ReloadRegdb,
            127 => Nl80211Cmd::ExternalAuth,
            128 => Nl80211Cmd::StaOpmodeChanged,
            129 => Nl80211Cmd::ControlPortFrame,
            130 => Nl80211Cmd::GetFtmResponderStats,
            131 => Nl80211Cmd::PeerMeasurementStart,
            132 => Nl80211Cmd::PeerMeasurementResult,
            133 => Nl80211Cmd::PeerMeasurementComplete,
            134 => Nl80211Cmd::NotifyRadar,
            135 => Nl80211Cmd::UpdateOweInfo,
            136 => Nl80211Cmd::ProbeMeshLink,
            137 => Nl80211Cmd::SetTidConfig,
            138 => Nl80211Cmd::UnprotBeacon,
            139 => Nl80211Cmd::ControlPortFrameTxStatus,
            140 => Nl80211Cmd::SetSarSpecs,
            141 => Nl80211Cmd::ObssColorCollision,
            142 => Nl80211Cmd::ColorChangeRequest,
            143 => Nl80211Cmd::ColorChangeStarted,
            144 => Nl80211Cmd::ColorChangeAborted,
            145 => Nl80211Cmd::ColorChangeCompleted,
            146 => Nl80211Cmd::SetFilsAad,
            147 => Nl80211Cmd::AssocComeback,
            148 => Nl80211Cmd::AfterLast,
            _ => Nl80211Cmd::UnrecognizedConst(code),
        }
    }

    /// The code of a value.
    pub open spec fn spec_code(self) -> u8 {
        match self {
            Nl80211Cmd::Unspec => 0,
            Nl80211Cmd::GetWiphy => 1,
            Nl80211Cmd::SetWiphy => 2,
            Nl80211Cmd::NewWiphy => 3,
            Nl80211Cmd::DelWiphy => 4,
            Nl80211Cmd::GetInterface => 5,
            Nl80211Cmd::SetInterface => 6,
            Nl80211Cmd::NewInterface => 7,
            Nl80211Cmd::DelInterface => 8,
            Nl80211Cmd::GetKey => 9,
            Nl80211Cmd::SetKey => 10,
            Nl80211Cmd::NewKey => 11,
            Nl80211Cmd::DelKey => 12,
            Nl80211Cmd::GetBeacon => 13,
            Nl80211Cmd::SetBeacon => 14,
            Nl80211Cmd::StartAp => 15,
            Nl80211Cmd::NewBeacon => 15,
            Nl80211Cmd::StopAp => 16,
            Nl80211Cmd::DelBeacon => 16,
            Nl80211Cmd::GetStation => 17,
            Nl80211Cmd::SetStation => 18,
            Nl80211Cmd::NewStation => 19,
            Nl80211Cmd::DelStation => 20,
            Nl80211Cmd::GetMpath => 21,
            Nl80211Cmd::SetMpath => 22,
            Nl80211Cmd::NewMpath => 23,
            Nl80211Cmd::DelMpath => 24,
            Nl80211Cmd::SetBss => 25,
            Nl80211Cmd::SetReg => 26,
            Nl80211Cmd::ReqSetReg => 27,
            Nl80211Cmd::GetMeshConfig => 28,
            Nl80211Cmd::SetMeshConfig => 29,
            Nl80211Cmd::SetMgmtExtraIe => 30,
            Nl80211Cmd::GetReg => 31,
            Nl80211Cmd::GetScan => 32,
            Nl80211Cmd::TriggerScan => 33,
            Nl80211Cmd::NewScanResults => 34,
            Nl80211Cmd::ScanAborted => 35,
            Nl80211Cmd::RegChange => 36,
            Nl80211Cmd::Authenticate => 37,
            Nl80211Cmd::Associate => 38,
            Nl80211Cmd::Deauthenticate => 39,
            Nl80211Cmd::Disassociate => 40,
            Nl80211Cmd::MichaelMicFailure => 41,
            Nl80211Cmd::RegBeaconHint => 42,
            Nl80211Cmd::JoinIbss => 43,
            Nl80211Cmd::LeaveIbss => 44,
            Nl80211Cmd::Testmode => 45,
            Nl80211Cmd::Connect => 46,
            Nl80211Cmd::Roam => 47,
            Nl80211Cmd::Disconnect => 48,
            Nl80211Cmd::SetWiphyNetns => 49,
            Nl80211Cmd::GetSurvey => 50,
            Nl80211Cmd::NewSurveyResults => 51,
            Nl80211Cmd::SetPmksa => 52,
            Nl80211Cmd::DelPmksa => 53,
            Nl80211Cmd::FlushPmksa => 54,
            Nl80211Cmd::RemainOnChannel => 55,
            Nl80211Cmd::CancelRemainOnChannel => 56,
            Nl80211Cmd::SetTxBitrateMask => 57,
            Nl80211Cmd::RegisterFrame => 58,
            Nl80211Cmd::RegisterAction => 58,
            Nl80211Cmd::Frame => 59,
            Nl80211Cmd::Action => 59,
            Nl80211Cmd::FrameTxStatus => 60,
            Nl80211Cmd::ActionTxStatus => 60,
            Nl80211Cmd::SetPowerSave => 61,
            Nl80211Cmd::GetPowerSave => 62,
            Nl80211Cmd::SetCqm => 63,
            Nl80211Cmd::NotifyCqm => 64,
            Nl80211Cmd::SetChannel => 65,
            Nl80211Cmd::SetWdsPeer => 66,
            Nl80211Cmd::FrameWaitCancel => 67,
            Nl80211Cmd::JoinMesh => 68,
            Nl80211Cmd::LeaveMesh => 69,
            Nl80211Cmd::UnprotDeauthenticate => 70,
            Nl80211Cmd::UnprotDisassociate => 71,
            Nl80211Cmd::NewPeerCandidate => 72,
            Nl80211Cmd::GetWowlan => 73,
            Nl80211Cmd::SetWowlan => 74,
            Nl80211Cmd::StartSchedScan => 75,
            Nl80211Cmd::StopSchedScan => 76,
            Nl80211Cmd::SchedScanResults => 77,
            Nl80211Cmd::SchedScanStopped => 78,
            Nl80211Cmd::SetRekeyOffload => 79,
            Nl80211Cmd::PmksaCandidate => 80,
            Nl80211Cmd::TdlsOper => 81,
            Nl80211Cmd::TdlsMgmt => 82,
            Nl80211Cmd::UnexpectedFrame => 83,
            Nl80211Cmd::ProbeClient => 84,
            Nl80211Cmd::RegisterBeacons => 85,
            Nl80211Cmd::Unexpected4addrFrame => 86,
            Nl80211Cmd::SetNoackMap => 87,
            Nl80211Cmd::ChSwitchNotify => 88,
            Nl80211Cmd::StartP2pDevice => 89,
            Nl80211Cmd::StopP2pDevice => 90,
            Nl80211Cmd::ConnFailed => 91,
            Nl80211Cmd::SetMcastRate => 92,
            Nl80211Cmd::SetMacAcl => 93,
            Nl80211Cmd::RadarDetect => 94,
            Nl80211Cmd::GetProtocolFeatures => 95,
            Nl80211Cmd::UpdateFtIes => 96,
            Nl80211Cmd::FtEvent => 97,
            Nl80211Cmd::CritProtocolStart => 98,
            Nl80211Cmd::CritProtocolStop => 99,
            Nl80211Cmd::GetCoalesce => 100,
            Nl80211Cmd::SetCoalesce => 101,
            Nl80211Cmd::ChannelSwitch => 102,
            Nl80211Cmd::Vendor => 103,
            Nl80211Cmd::SetQosMap => 104,
            Nl80211Cmd::AddTxTs => 105,
            Nl80211Cmd::DelTxTs => 106,
            Nl80211Cmd::GetMpp => 107,
            Nl80211Cmd::JoinOcb => 108,
            Nl80211Cmd::LeaveOcb => 109,
            Nl80211Cmd::ChSwitchStartedNotify => 110,
            Nl80211Cmd::TdlsChannelSwitch => 111,
            Nl80211Cmd::TdlsCancelChannelSwitch => 112,
            Nl80211Cmd::WiphyRegChange => 113,
            Nl80211Cmd::AbortScan => 114,
            Nl80211Cmd::StartNan => 115,
            Nl80211Cmd::StopNan => 116,
            Nl80211Cmd::AddNanFunction => 117,
            Nl80211Cmd::DelNanFunction => 118,
            Nl80211Cmd::ChangeNanConfig => 119,
            Nl80211Cmd::NanMatch => 120,
            Nl80211Cmd::SetMulticastToUnicast => 121,
            Nl80211Cmd::UpdateConnectParams => 122,
            Nl80211Cmd::SetPmk => 123,
            Nl80211Cmd::DelPmk => 124,
            Nl80211Cmd::PortAuthorized => 125,
            Nl80211Cmd::ReloadRegdb => 126,
            Nl80211Cmd::ExternalAuth => 127,
            Nl80211Cmd::StaOpmodeChanged => 128,
            Nl80211Cmd::ControlPortFrame => 129,
            Nl80211Cmd::GetFtmResponderStats => 130,
            Nl80211Cmd::PeerMeasurementStart => 131,
            Nl80211Cmd::PeerMeasurementResult => 132,
            Nl80211Cmd::PeerMeasurementComplete => 133,
            Nl80211Cmd::NotifyRadar => 134,
            Nl80211Cmd::UpdateOweInfo => 135,
            Nl80211Cmd::ProbeMeshLink => 136,
            Nl80211Cmd::SetTidConfig => 137,
            Nl80211Cmd::UnprotBeacon => 138,
            Nl80211Cmd::ControlPortFrameTxStatus => 139,
            Nl80211Cmd::SetSarSpecs => 140,
            Nl80211Cmd::ObssColorCollision => 141,
            Nl80211Cmd::ColorChangeRequest => 142,
            Nl80211Cmd::ColorChangeStarted => 143,
            Nl80211Cmd::ColorChangeAborted => 144,
            Nl80211Cmd::ColorChangeCompleted => 145,
            Nl80211Cmd::SetFilsAad => 146,
            Nl80211Cmd::AssocComeback => 147,
            Nl80211Cmd::AfterLast => 148,
            Nl80211Cmd::AttrMax => 147,
            Nl80211Cmd::UnrecognizedConst(code) => code,
        }
    }

    /// Whether the value is none that the vocabulary names.
    pub fn is_unrecognized(&self) -> (r: bool)
        ensures
            r == (*self is UnrecognizedConst),
    {
        match self {
            Nl80211Cmd::UnrecognizedConst(_) => true,
            _ => false,
        }
    }

    /// Every code is the code of the value it stands for.
    pub proof fn lemma_code_round_trip(code: u8)
        ensures
            Self::spec_from_code(code).spec_code() == code,
    {
    }
}

impl From<u8> for Nl80211Cmd {
    fn from(code: u8) -> (value: Self) {
        match code {
            0 => Nl80211Cmd::Unspec,
            1 => Nl80211Cmd::GetWiphy,
            2 => Nl80211Cmd::SetWiphy,
            3 => Nl80211Cmd::NewWiphy,
            4 => Nl80211Cmd::DelWiphy,
            5 => Nl80211Cmd::GetInterface,
            6 => Nl80211Cmd::SetInterface,
            7 => Nl80211Cmd::NewInterface,
            8 => Nl80211Cmd::DelInterface,
            9 => Nl80211Cmd::GetKey,
            10 => Nl80211Cmd::SetKey,
            11 => Nl80211Cmd::NewKey,
            12 => Nl80211Cmd::DelKey,
            13 => Nl80211Cmd::GetBeacon,
            14 => Nl80211Cmd::SetBeacon,
            15 => Nl80211Cmd::StartAp,
            16 => Nl80211Cmd::StopAp,
            17 => Nl80211Cmd::GetStation,
            18 => Nl80211Cmd::SetStation,
            19 => Nl80211Cmd::NewStation,
            20 => Nl80211Cmd::DelStation,
            21 => Nl80211Cmd::GetMpath,
            22 => Nl80211Cmd::SetMpath,
            23 => Nl80211Cmd::NewMpath,
            24 => Nl80211Cmd::DelMpath,
            25 => Nl80211Cmd::SetBss,
            26 => Nl80211Cmd::SetReg,
            27 => Nl80211Cmd::ReqSetReg,
            28 => Nl80211Cmd::GetMeshConfig,
            29 => Nl80211Cmd::SetMeshConfig,
            30 => Nl80211Cmd::SetMgmtExtraIe,
            31 => Nl80211Cmd::GetReg,
            32 => Nl80211Cmd::GetScan,
            33 => Nl80211Cmd::TriggerScan,
            34 => Nl80211Cmd::NewScanResults,
            35 => Nl80211Cmd::ScanAborted,
            36 => Nl80211Cmd::RegChange,
            37 => Nl80211Cmd::Authenticate,
            38 => Nl80211Cmd::Associate,
            39 => Nl80211Cmd::Deauthenticate,
            40 => Nl80211Cmd::Disassociate,
            41 => Nl80211Cmd::MichaelMicFailure,
            42 => Nl80211Cmd::RegBeaconHint,
            43 => Nl80211Cmd::JoinIbss,
            44 => Nl80211Cmd::LeaveIbss,
            45 => Nl80211Cmd::Testmode,
            46 => Nl80211Cmd::Connect,
            47 => Nl80211Cmd::Roam,
            48 => Nl80211Cmd::Disconnect,
            49 => Nl80211Cmd::SetWiphyNetns,
            50 => Nl80211Cmd::GetSurvey,
            51 => Nl80211Cmd::NewSurveyResults,
            52 => Nl80211Cmd::SetPmksa,
            53 => Nl80211Cmd::DelPmksa,
            54 => Nl80211Cmd::FlushPmksa,
            55 => Nl80211Cmd::RemainOnChannel,
            56 => Nl80211Cmd::CancelRemainOnChannel,
            57 => Nl80211Cmd::SetTxBitrateMask,
            58 => Nl80211Cmd::RegisterFrame,
            59 => Nl80211Cmd::Frame,
            60 => Nl80211Cmd::FrameTxStatus,
            61 => Nl80211Cmd::SetPowerSave,
            62 => Nl80211Cmd::GetPowerSave,
            63 => Nl80211Cmd::SetCqm,
            64 => Nl80211Cmd::NotifyCqm,
            65 => Nl80211Cmd::SetChannel,
            66 => Nl80211Cmd::SetWdsPeer,
            67 => Nl80211Cmd::FrameWaitCancel,
            68 => Nl80211Cmd::JoinMesh,
            69 => Nl80211Cmd::LeaveMesh,
            70 => Nl80211Cmd::UnprotDeauthenticate,
            71 => Nl80211Cmd::UnprotDisassociate,
            72 => Nl80211Cmd::NewPeerCandidate,
            73 => Nl80211Cmd::GetWowlan,
            74 => Nl80211Cmd::SetWowlan,
            75 => Nl80211Cmd::StartSchedScan,
            76 => Nl80211Cmd::StopSchedScan,
            77 => Nl80211Cmd::SchedScanResults,
            78 => Nl80211Cmd::SchedScanStopped,
            79 => Nl80211Cmd::SetRekeyOffload,
            80 => Nl80211Cmd::PmksaCandidate,
            81 => Nl80211Cmd::TdlsOper,
            82 => Nl80211Cmd::TdlsMgmt,
            83 => Nl80211Cmd::UnexpectedFrame,
            84 => Nl80211Cmd::ProbeClient,
            85 => Nl80211Cmd::RegisterBeacons,
            86 => Nl80211Cmd::Unexpected4addrFrame,
            87 => Nl80211Cmd::SetNoackMap,
            88 => Nl80211Cmd::ChSwitchNotify,
            89 => Nl80211Cmd::StartP2pDevice,
            90 => Nl80211Cmd::StopP2pDevice,
            91 => Nl80211Cmd::ConnFailed,
            92 => Nl80211Cmd::SetMcastRate,
            93 => Nl80211Cmd::SetMacAcl,
            94 => Nl80211Cmd::RadarDetect,
            95 => Nl80211Cmd::GetProtocolFeatures,
            96 => Nl80211Cmd::UpdateFtIes,
            97 => Nl80211Cmd::FtEvent,
            98 => Nl80211Cmd::CritProtocolStart,
            99 => Nl80211Cmd::CritProtocolStop,
            100 => Nl80211Cmd::GetCoalesce,
            101 => Nl80211Cmd::SetCoalesce,
            102 => Nl80211Cmd::ChannelSwitch,
            103 => Nl80211Cmd::Vendor,
            104 => Nl80211Cmd::SetQosMap,
            105 => Nl80211Cmd::AddTxTs,
            106 => Nl80211Cmd::DelTxTs,
            107 => Nl80211Cmd::GetMpp,
            108 => Nl80211Cmd::JoinOcb,
            109 => Nl80211Cmd::LeaveOcb,
            110 => Nl80211Cmd::ChSwitchStartedNotify,
            111 => Nl80211Cmd::TdlsChannelSwitch,
            112 => Nl80211Cmd::TdlsCancelChannelSwitch,
            113 => Nl80211Cmd::WiphyRegChange,
            114 => Nl80211Cmd::AbortScan,
            115 => Nl80211Cmd::StartNan,
            116 => Nl80211Cmd::StopNan,
            117 => Nl80211Cmd::AddNanFunction,
            118 => Nl80211Cmd::DelNanFunction,
            119 => Nl80211Cmd::ChangeNanConfig,
            120 => Nl80211Cmd::NanMatch,
            121 => Nl80211Cmd::SetMulticastToUnicast,
            122 => Nl80211Cmd::UpdateConnectParams,
            123 => Nl80211Cmd::SetPmk,
            124 => Nl80211Cmd::DelPmk,
            125 => Nl80211Cmd::PortAuthorized,
            126 => Nl80211Cmd::ReloadRegdb,
            127 => Nl80211Cmd::ExternalAuth,
            128 => Nl80211Cmd::StaOpmodeChanged,
            129 => Nl80211Cmd::ControlPortFrame,
            130 => Nl80211Cmd::GetFtmResponderStats,
            131 => Nl80211Cmd::PeerMeasurementStart,
            132 => Nl80211Cmd::PeerMeasurementResult,
            133 => Nl80211Cmd::PeerMeasurementComplete,
            134 => Nl80211Cmd::NotifyRadar,
            135 => Nl80211Cmd::UpdateOweInfo,
            136 => Nl80211Cmd::ProbeMeshLink,
            137 => Nl80211Cmd::SetTidConfig,
            138 => Nl80211Cmd::UnprotBeacon,
            139 => Nl80211Cmd::ControlPortFrameTxStatus,
            140 => Nl80211Cmd::SetSarSpecs,
            141 => Nl80211Cmd::ObssColorCollision,
            142 => Nl80211Cmd::ColorChangeRequest,
            143 => Nl80211Cmd::ColorChangeStarted,
            144 => Nl80211Cmd::ColorChangeAborted,
            145 => Nl80211Cmd::ColorChangeCompleted,
            146 => Nl80211Cmd::SetFilsAad,
            147 => Nl80211Cmd::AssocComeback,
            148 => Nl80211Cmd::AfterLast,
            _ => Nl80211Cmd::UnrecognizedConst(code),
        }
    }
}

impl FromSpecImpl<u8> for Nl80211Cmd {
    open spec fn obeys_from_spec() -> bool {
        true
    }

    open spec fn from_spec(code: u8) -> Self {
        Self::spec_from_code(code)
    }
}

impl From<Nl80211Cmd> for u8 {
    fn from(value: Nl80211Cmd) -> (code: u8) {
        match value {
            Nl80211Cmd::Unspec => 0,
            Nl80211Cmd::GetWiphy => 1,
            Nl80211Cmd::SetWiphy => 2,
            Nl80211Cmd::NewWiphy => 3,
            Nl80211Cmd::DelWiphy => 4,
            Nl80211Cmd::GetInterface => 5,
            Nl80211Cmd::SetInterface => 6,
            Nl80211Cmd::NewInterface => 7,
            Nl80211Cmd::DelInterface => 8,
            Nl80211Cmd::GetKey => 9,
            Nl80211Cmd::SetKey => 10,
            Nl80211Cmd::NewKey => 11,
            Nl80211Cmd::DelKey => 12,
            Nl80211Cmd::GetBeacon => 13,
            Nl80211Cmd::SetBeacon => 14,
            Nl80211Cmd::StartAp => 15,
            Nl80211Cmd::NewBeacon => 15,
            Nl80211Cmd::StopAp => 16,
            Nl80211Cmd::DelBeacon => 16,
            Nl80211Cmd::GetStation => 17,
            Nl80211Cmd::SetStation => 18,
            Nl80211Cmd::NewStation => 19,
            Nl80211Cmd::DelStation => 20,
            Nl80211Cmd::GetMpath => 21,
            Nl80211Cmd::SetMpath => 22,
            Nl80211Cmd::NewMpath => 23,
            Nl80211Cmd::DelMpath => 24,
            Nl80211Cmd::SetBss => 25,
            Nl80211Cmd::SetReg => 26,
            Nl80211Cmd::ReqSetReg => 27,
            Nl80211Cmd::GetMeshConfig => 28,
            Nl80211Cmd::SetMeshConfig => 29,
            Nl80211Cmd::SetMgmtExtraIe => 30,
            Nl80211Cmd::GetReg => 31,
            Nl80211Cmd::GetScan => 32,
            Nl80211Cmd::TriggerScan => 33,
            Nl80211Cmd::NewScanResults => 34,
            Nl80211Cmd::ScanAborted => 35,
            Nl80211Cmd::RegChange => 36,
            Nl80211Cmd::Authenticate => 37,
            Nl80211Cmd::Associate => 38,
            Nl80211Cmd::Deauthenticate => 39,
            Nl80211Cmd::Disassociate => 40,
            Nl80211Cmd::MichaelMicFailure => 41,
            Nl80211Cmd::RegBeaconHint => 42,
            Nl80211Cmd::JoinIbss => 43,
            Nl80211Cmd::LeaveIbss => 44,
            Nl80211Cmd::Testmode => 45,
            Nl80211Cmd::Connect => 46,
            Nl80211Cmd::Roam => 47,
            Nl80211Cmd::Disconnect => 48,
            Nl80211Cmd::SetWiphyNetns => 49,
            Nl80211Cmd::GetSurvey => 50,
            Nl80211Cmd::NewSurveyResults => 51,
            Nl80211Cmd::SetPmksa => 52,
            Nl80211Cmd::DelPmksa => 53,
            Nl80211Cmd::FlushPmksa => 54,
            Nl80211Cmd::RemainOnChannel => 55,
            Nl80211Cmd::CancelRemainOnChannel => 56,
            Nl80211Cmd::SetTxBitrateMask => 57,
            Nl80211Cmd::RegisterFrame => 58,
            Nl80211Cmd::RegisterAction => 58,
            Nl80211Cmd::Frame => 59,
            Nl80211Cmd::Action => 59,
            Nl80211Cmd::FrameTxStatus => 60,
            Nl80211Cmd::ActionTxStatus => 60,
            Nl80211Cmd::SetPowerSave => 61,
            Nl80211Cmd::GetPowerSave => 62,
            Nl80211Cmd::SetCqm => 63,
            Nl80211Cmd::NotifyCqm => 64,
            Nl80211Cmd::SetChannel => 65,
            Nl80211Cmd::SetWdsPeer => 66,
            Nl80211Cmd::FrameWaitCancel => 67,
            Nl80211Cmd::JoinMesh => 68,
            Nl80211Cmd::LeaveMesh => 69,
            Nl80211Cmd::UnprotDeauthenticate => 70,
            Nl80211Cmd::UnprotDisassociate => 71,
            Nl80211Cmd::NewPeerCandidate => 72,
            Nl80211Cmd::GetWowlan => 73,
            Nl80211Cmd::SetWowlan => 74,
            Nl80211Cmd::StartSchedScan => 75,
            Nl80211Cmd::StopSchedScan => 76,
            Nl80211Cmd::SchedScanResults => 77,
            Nl80211Cmd::SchedScanStopped => 78,
            Nl80211Cmd::SetRekeyOffload => 79,
            Nl80211Cmd::PmksaCandidate => 80,
            Nl80211Cmd::TdlsOper => 81,
            Nl80211Cmd::TdlsMgmt => 82,
            Nl80211Cmd::UnexpectedFrame => 83,
            Nl80211Cmd::ProbeClient => 84,
            Nl80211Cmd::RegisterBeacons => 85,
            Nl80211Cmd::Unexpected4addrFrame => 86,
            Nl80211Cmd::SetNoackMap => 87,
            Nl80211Cmd::ChSwitchNotify => 88,
            Nl80211Cmd::StartP2pDevice => 89,
            Nl80211Cmd::StopP2pDevice => 90,
            Nl80211Cmd::ConnFailed => 91,
            Nl80211Cmd::SetMcastRate => 92,
            Nl80211Cmd::SetMacAcl => 93,
            Nl80211Cmd::RadarDetect => 94,
            Nl80211Cmd::GetProtocolFeatures => 95,
            Nl80211Cmd::UpdateFtIes => 96,
            Nl80211Cmd::FtEvent => 97,
            Nl80211Cmd::CritProtocolStart => 98,
            Nl80211Cmd::CritProtocolStop => 99,
            Nl80211Cmd::GetCoalesce => 100,
            Nl80211Cmd::SetCoalesce => 101,
            Nl80211Cmd::ChannelSwitch => 102,
            Nl80211Cmd::Vendor => 103,
            Nl80211Cmd::SetQosMap => 104,
            Nl80211Cmd::AddTxTs => 105,
            Nl80211Cmd::DelTxTs => 106,
            Nl80211Cmd::GetMpp => 107,
            Nl80211Cmd::JoinOcb => 108,
            Nl80211Cmd::LeaveOcb => 109,
            Nl80211Cmd::ChSwitchStartedNotify => 110,
            Nl80211Cmd::TdlsChannelSwitch => 111,
            Nl80211Cmd::TdlsCancelChannelSwitch => 112,
            Nl80211Cmd::WiphyRegChange => 113,
            Nl80211Cmd::AbortScan => 114,
            Nl80211Cmd::StartNan => 115,
            Nl80211Cmd::StopNan => 116,
            Nl80211Cmd::AddNanFunction => 117,
            Nl80211Cmd::DelNanFunction => 118,
            Nl80211Cmd::ChangeNanConfig => 119,
            Nl80211Cmd::NanMatch => 120,
            Nl80211Cmd::SetMulticastToUnicast => 121,
            Nl80211Cmd::UpdateConnectParams => 122,
            Nl80211Cmd::SetPmk => 123,
            Nl80211Cmd::DelPmk => 124,
            Nl80211Cmd::PortAuthorized => 125,
            Nl80211Cmd::ReloadRegdb => 126,
            Nl80211Cmd::ExternalAuth => 127,
            Nl80211Cmd::StaOpmodeChanged => 128,
            Nl80211Cmd::ControlPortFrame => 129,
            Nl80211Cmd::GetFtmResponderStats => 130,
            Nl80211Cmd::PeerMeasurementStart => 131,
            Nl80211Cmd::PeerMeasurementResult => 132,
            Nl80211Cmd::PeerMeasurementComplete => 133,
            Nl80211Cmd::NotifyRadar => 134,
            Nl80211Cmd::UpdateOweInfo => 135,
            Nl80211Cmd::ProbeMeshLink => 136,
            Nl80211Cmd::SetTidConfig => 137,
            Nl80211Cmd::UnprotBeacon => 138,
            Nl80211Cmd::ControlPortFrameTxStatus => 139,
            Nl80211Cmd::SetSarSpecs => 140,
            Nl80211Cmd::ObssColorCollision => 141,
            Nl80211Cmd::ColorChangeRequest => 142,
            Nl80211Cmd::ColorChangeStarted => 143,
            Nl80211Cmd::ColorChangeAborted => 144,
            Nl80211Cmd::ColorChangeCompleted => 145,
            Nl80211Cmd::SetFilsAad => 146,
            Nl80211Cmd::AssocComeback => 147,
            Nl80211Cmd::AfterLast => 148,
            Nl80211Cmd::AttrMax => 147,
            Nl80211Cmd::UnrecognizedConst(code) => code,
        }
    }
}

impl FromSpecImpl<Nl80211Cmd> for u8 {
    open spec fn obeys_from_spec() -> bool {
        true
    }

    open spec fn from_spec(value: Nl80211Cmd) -> u8 {
        value.spec_code()
    }
}

/// The kernel's `nl80211_attrs` enumeration.
#[derive(Clone, Copy, Debug, PartialEq, Eq, PartialOrd, Ord, Hash, Structural)]
pub enum Nl80211Attr {
    Unspec,
    Wiphy,
    WiphyName,
    Ifindex,
    Ifname,
    Iftype,
    Mac,
    KeyData,
    KeyIdx,
    KeyCipher,
    KeySeq,
    KeyDefault,
    BeaconInterval,
    DtimPeriod,
    BeaconHead,
    BeaconTail,
    StaAid,
    StaFlags,
    StaListenInterval,
    StaSupportedRates,
    StaVlan,
    StaInfo,
    WiphyBands,
    MntrFlags,
    MeshId,
    StaPlinkAction,
    MpathNextHop,
    MpathInfo,
    BssCtsProt,
    BssShortPreamble,
    BssShortSlotTime,
    HtCapability,
    SupportedIftypes,
    RegAlpha2,
    RegRules,
    MeshConfig,
    BssBasicRates,
    WiphyTxqParams,
    WiphyFreq,
    WiphyChannelType,
    KeyDefaultMgmt,
    MgmtSubtype,
    Ie,
    MaxNumScanSsids,
    ScanFrequencies,
    ScanSsids,
    Generation,
    Bss,
    RegInitiator,
    RegType,
    SupportedCommands,
    Frame,
    Ssid,
    AuthType,
    ReasonCode,
    KeyType,
    MaxScanIeLen,
    CipherSuites,
    FreqBefore,
    FreqAfter,
    FreqFixed,
    WiphyRetryShort,
    WiphyRetryLong,
    WiphyFragThreshold,
    WiphyRtsThreshold,
    TimedOut,
    UseMfp,
    StaFlags2,
    ControlPort,
    Testdata,
    Privacy,
    DisconnectedByAp,
    StatusCode,
    CipherSuitesPairwise,
    CipherSuiteGroup,
    WpaVersions,
    AkmSuites,
    ReqIe,
    RespIe,
    PrevBssid,
    Key,
    Keys,
    Pid,
    Addr4,
    SurveyInfo,
    Pmkid,
    MaxNumPmkids,
    Duration,
    Cookie,
    WiphyCoverageClass,
    TxRates,
    FrameMatch,
    Ack,
    PsState,
    Cqm,
    LocalStateChange,
    ApIsolate,
    WiphyTxPowerSetting,
    WiphyTxPowerLevel,
    TxFrameTypes,
    RxFrameTypes,
    FrameType,
    ControlPortEthertype,
    ControlPortNoEncrypt,
    SupportIbssRsn,
    WiphyAntennaTx,
    WiphyAntennaRx,
    McastRate,
    OffchannelTxOk,
    BssHtOpmode,
    KeyDefaultTypes,
    MaxRemainOnChannelDuration,
    MeshSetup,
    WiphyAntennaAvailTx,
    WiphyAntennaAvailRx,
    SupportMeshAuth,
    StaPlinkState,
    WowlanTriggers,
    WowlanTriggersSupported,
    SchedScanInterval,
    InterfaceCombinations,
    SoftwareIftypes,
    RekeyData,
    MaxNumSchedScanSsids,
    MaxSchedScanIeLen,
    ScanSuppRates,
    HiddenSsid,
    IeProbeResp,
    IeAssocResp,
    StaWme,
    SupportApUapsd,
    RoamSupport,
    SchedScanMatch,
    MaxMatchSets,
    PmksaCandidate,
    TxNoCckRate,
    TdlsAction,
    TdlsDialogToken,
    TdlsOperation,
    TdlsSupport,
    TdlsExternalSetup,
    DeviceApSme,
    DontWaitForAck,
    FeatureFlags,
    ProbeRespOffload,
    ProbeResp,
    DfsRegion,
    DisableHt,
    HtCapabilityMask,
    NoackMap,
    InactivityTimeout,
    RxSignalDbm,
    BgScanPeriod,
    Wdev,
    UserRegHintType,
    ConnFailedReason,
    SaeData,
    VhtCapability,
    ScanFlags,
    ChannelWidth,
    CenterFreq1,
    CenterFreq2,
    P2pCtwindow,
    P2pOppps,
    LocalMeshPowerMode,
    AclPolicy,
    MacAddrs,
    MacAclMax,
    RadarEvent,
    ExtCapa,
    ExtCapaMask,
    StaCapability,
    StaExtCapability,
    ProtocolFeatures,
    SplitWiphyDump,
    DisableVht,
    VhtCapabilityMask,
    Mdid,
    IeRic,
    CritProtId,
    MaxCritProtDuration,
    PeerAid,
    CoalesceRule,
    ChSwitchCount,
    ChSwitchBlockTx,
    CsaIes,
    CsaCOffBeacon,
    CsaCOffPresp,
    RxmgmtFlags,
    StaSupportedChannels,
    StaSupportedOperClasses,
    HandleDfs,
    Support5Mhz,
    Support10Mhz,
    OpmodeNotif,
    VendorId,
    VendorSubcmd,
    VendorData,
    VendorEvents,
    QosMap,
    MacHint,
    WiphyFreqHint,
    MaxApAssocSta,
    TdlsPeerCapability,
    SocketOwner,
    CsaCOffsetsTx,
    MaxCsaCounters,
    TdlsInitiator,
    UseRrm,
    WiphyDynAck,
    Tsid,
    UserPrio,
    AdmittedTime,
    SmpsMode,
    OperClass,
    MacMask,
    WiphySelfManagedReg,
    ExtFeatures,
    SurveyRadioStats,
    NetnsFd,
    SchedScanDelay,
    RegIndoor,
    MaxNumSchedScanPlans,
    MaxScanPlanInterval,
    MaxScanPlanIterations,
    SchedScanPlans,
    Pbss,
    BssSelect,
    StaSupportP2pPs,
    Pad,
    IftypeExtCapa,
    MuMimoGroupData,
    MuMimoFollowMacAddr,
    ScanStartTimeTsf,
    ScanStartTimeTsfBssid,
    MeasurementDuration,
    MeasurementDurationMandatory,
    MeshPeerAid,
    NanMasterPref,
    NanDual,
    NanFunc,
    NanMatch,
    AfterLast,
    NumAttr,
    AttrMax,
    UnrecognizedConst(u16),
}

impl Nl80211Attr {
    /// The value that a code stands for; where two names share a code, the
    /// first of them.
    pub open spec fn spec_from_code(code: u16) -> Self {
        match code {
            0 => Nl80211Attr::Unspec,
            1 => Nl80211Attr::Wiphy,
            2 => Nl80211Attr::WiphyName,
            3 => Nl80211Attr::Ifindex,
            4 => Nl80211Attr::Ifname,
            5 => Nl80211Attr::Iftype,
            6 => Nl80211Attr::Mac,
            7 => Nl80211Attr::KeyData,
            8 => Nl80211Attr::KeyIdx,
            9 => Nl80211Attr::KeyCipher,
            10 => Nl80211Attr::KeySeq,
            11 => Nl80211Attr::KeyDefault,
            12 => Nl80211Attr::BeaconInterval,
            13 => Nl80211Attr::DtimPeriod,
            14 => Nl80211Attr::BeaconHead,
            15 => Nl80211Attr::BeaconTail,
            16 => Nl80211Attr::StaAid,
            17 => Nl80211Attr::StaFlags,
            18 => Nl80211Attr::StaListenInterval,
            19 => Nl80211Attr::StaSupportedRates,
            20 => Nl80211Attr::StaVlan,
            21 => Nl80211Attr::StaInfo,
            22 => Nl80211Attr::WiphyBands,
            23 => Nl80211Attr::MntrFlags,
            24 => Nl80211Attr::MeshId,
            25 => Nl80211Attr::StaPlinkAction,
            26 => Nl80211Attr::MpathNextHop,
            27 => Nl80211Attr::MpathInfo,
            28 => Nl80211Attr::BssCtsProt,
            29 => Nl80211Attr::BssShortPreamble,
            30 => Nl80211Attr::BssShortSlotTime,
            31 => Nl80211Attr::HtCapability,
            32 => Nl80211Attr::SupportedIftypes,
            33 => Nl80211Attr::RegAlpha2,
            34 => Nl80211Attr::RegRules,
            35 => Nl80211Attr::MeshConfig,
            36 => Nl80211Attr::BssBasicRates,
            37 => Nl80211Attr::WiphyTxqParams,
            38 => Nl80211Attr::WiphyFreq,
            39 => Nl80211Attr::WiphyChannelType,
            40 => Nl80211Attr::KeyDefaultMgmt,
            41 => Nl80211Attr::MgmtSubtype,
            42 => Nl80211Attr::Ie,
            43 => Nl80211Attr::MaxNumScanSsids,
            44 => Nl80211Attr::ScanFrequencies,
            45 => Nl80211Attr::ScanSsids,
            46 => Nl80211Attr::Generation,
            47 => Nl80211Attr::Bss,
            48 => Nl80211Attr::RegInitiator,
            49 => Nl80211Attr::RegType,
            50 => Nl80211Attr::SupportedCommands,
            51 => Nl80211Attr::Frame,
            52 => Nl80211Attr::Ssid,
            53 => Nl80211Attr::AuthType,
            54 => Nl80211Attr::ReasonCode,
            55 => Nl80211Attr::KeyType,
            56 => Nl80211Attr::MaxScanIeLen,
            57 => Nl80211Attr::CipherSuites,
            58 => Nl80211Attr::FreqBefore,
            59 => Nl80211Attr::FreqAfter,
            60 => Nl80211Attr::FreqFixed,
            61 => Nl80211Attr::WiphyRetryShort,
            62 => Nl80211Attr::WiphyRetryLong,
            63 => Nl80211Attr::WiphyFragThreshold,
            64 => Nl80211Attr::WiphyRtsThreshold,
            65 => Nl80211Attr::TimedOut,
            66 => Nl80211Attr::UseMfp,
            67 => Nl80211Attr::StaFlags2,
            68 => Nl80211Attr::ControlPort,
            69 => Nl80211Attr::Testdata,
            70 => Nl80211Attr::Privacy,
            71 => Nl80211Attr::DisconnectedByAp,
            72 => Nl80211Attr::StatusCode,
            73 => Nl80211Attr::CipherSuitesPairwise,
            74 => Nl80211Attr::CipherSuiteGroup,
            75 => Nl80211Attr::WpaVersions,
            76 => Nl80211Attr::AkmSuites,
            77 => Nl80211Attr::ReqIe,
            78 => Nl80211Attr::RespIe,
            79 => Nl80211Attr::PrevBssid,
            80 => Nl80211Attr::Key,
            81 => Nl80211Attr::Keys,
            82 => Nl80211Attr::Pid,
            83 => Nl80211Attr::Addr4,
            84 => Nl80211Attr::SurveyInfo,
            85 => Nl80211Attr::Pmkid,
            86 => Nl80211Attr::MaxNumPmkids,
            87 => Nl80211Attr::Duration,
            88 => Nl80211Attr::Cookie,
            89 => Nl80211Attr::WiphyCoverageClass,
            90 => Nl80211Attr::TxRates,
            91 => Nl80211Attr::FrameMatch,
            92 => Nl80211Attr::Ack,
            93 => Nl80211Attr::PsState,
            94 => Nl80211Attr::Cqm,
            95 => Nl80211Attr::LocalStateChange,
            96 => Nl80211Attr::ApIsolate,
            97 => Nl80211Attr::WiphyTxPowerSetting,
            98 => Nl80211Attr::WiphyTxPowerLevel,
            99 => Nl80211Attr::TxFrameTypes,
            100 => Nl80211Attr::RxFrameTypes,
            101 => Nl80211Attr::FrameType,
            102 => Nl80211Attr::ControlPortEthertype,
            103 => Nl80211Attr::ControlPortNoEncrypt,
            104 => Nl80211Attr::SupportIbssRsn,
            105 => Nl80211Attr::WiphyAntennaTx,
            106 => Nl80211Attr::WiphyAntennaRx,
            107 => Nl80211Attr::McastRate,
            108 => Nl80211Attr::OffchannelTxOk,
            109 => Nl80211Attr::BssHtOpmode,
            110 => Nl80211Attr::KeyDefaultTypes,
            111 => Nl80211Attr::MaxRemainOnChannelDuration,
            112 => Nl80211Attr::MeshSetup,
            113 => Nl80211Attr::WiphyAntennaAvailTx,
            114 => Nl80211Attr::WiphyAntennaAvailRx,
            115 => Nl80211Attr::SupportMeshAuth,
            116 => Nl80211Attr::StaPlinkState,
            117 => Nl80211Attr::WowlanTriggers,
            118 => Nl80211Attr::WowlanTriggersSupported,
            119 => Nl80211Attr::SchedScanInterval,
            120 => Nl80211Attr::InterfaceCombinations,
            121 => Nl80211Attr::SoftwareIftypes,
            122 => Nl80211Attr::RekeyData,
            123 => Nl80211Attr::MaxNumSchedScanSsids,
            124 => Nl80211Attr::MaxSchedScanIeLen,
            125 => Nl80211Attr::ScanSuppRates,
            126 => Nl80211Attr::HiddenSsid,
            127 => Nl80211Attr::IeProbeResp,
            128 => Nl80211Attr::IeAssocResp,
            129 => Nl80211Attr::StaWme,
            130 => Nl80211Attr::SupportApUapsd,
            131 => Nl80211Attr::RoamSupport,
            132 => Nl80211Attr::SchedScanMatch,
            133 => Nl80211Attr::MaxMatchSets,
            134 => Nl80211Attr::PmksaCandidate,
            135 => Nl80211Attr::TxNoCckRate,
            136 => Nl80211Attr::TdlsAction,
            137 => Nl80211Attr::TdlsDialogToken,
            138 => Nl80211Attr::TdlsOperation,
            139 => Nl80211Attr::TdlsSupport,
            140 => Nl80211Attr::TdlsExternalSetup,
            141 => Nl80211Attr::DeviceApSme,
            142 => Nl80211Attr::DontWaitForAck,
            143 => Nl80211Attr::FeatureFlags,
            144 => Nl80211Attr::ProbeRespOffload,
            145 => Nl80211Attr::ProbeResp,
            146 => Nl80211Attr::DfsRegion,
            147 => Nl80211Attr::DisableHt,
            148 => Nl80211Attr::HtCapabilityMask,
            149 => Nl80211Attr::NoackMap,
            150 => Nl80211Attr::InactivityTimeout,
            151 => Nl80211Attr::RxSignalDbm,
            152 => Nl80211Attr::BgScanPeriod,
            153 => Nl80211Attr::Wdev,
            154 => Nl80211Attr::UserRegHintType,
            155 => Nl80211Attr::ConnFailedReason,
            156 => Nl80211Attr::SaeData,
            157 => Nl80211Attr::VhtCapability,
            158 => Nl80211Attr::ScanFlags,
            159 => Nl80211Attr::ChannelWidth,
            160 => Nl80211Attr::CenterFreq1,
            161 => Nl80211Attr::CenterFreq2,
            162 => Nl80211Attr::P2pCtwindow,
            163 => Nl80211Attr::P2pOppps,
            164 => Nl80211Attr::LocalMeshPowerMode,
            165 => Nl80211Attr::AclPolicy,
            166 => Nl80211Attr::MacAddrs,
            167 => Nl80211Attr::MacAclMax,
            168 => Nl80211Attr::RadarEvent,
            169 => Nl80211Attr::ExtCapa,
            170 => Nl80211Attr::ExtCapaMask,
            171 => Nl80211Attr::StaCapability,
            172 => Nl80211Attr::StaExtCapability,
            173 => Nl80211Attr::ProtocolFeatures,
            174 => Nl80211Attr::SplitWiphyDump,
            175 => Nl80211Attr::DisableVht,
            176 => Nl80211Attr::VhtCapabilityMask,
            177 => Nl80211Attr::Mdid,
            178 => Nl80211Attr::IeRic,
            179 => Nl80211Attr::CritProtId,
            180 => Nl80211Attr::MaxCritProtDuration,
            181 => Nl80211Attr::PeerAid,
            182 => Nl80211Attr::CoalesceRule,
            183 => Nl80211Attr::ChSwitchCount,
            184 => Nl80211Attr::ChSwitchBlockTx,
            185 => Nl80211Attr::CsaIes,
            186 => Nl80211Attr::CsaCOffBeacon,
            187 => Nl80211Attr::CsaCOffPresp,
            188 => Nl80211Attr::RxmgmtFlags,
            189 => Nl80211Attr::StaSupportedChannels,
            190 => Nl80211Attr::StaSupportedOperClasses,
            191 => Nl80211Attr::HandleDfs,
            192 => Nl80211Attr::Support5Mhz,
            193 => Nl80211Attr::Support10Mhz,
            194 => Nl80211Attr::OpmodeNotif,
            195 => Nl80211Attr::VendorId,
            196 => Nl80211Attr::VendorSubcmd,
            197 => Nl80211Attr::VendorData,
            198 => Nl80211Attr::VendorEvents,
            199 => Nl80211Attr::QosMap,
            200 => Nl80211Attr::MacHint,
            201 => Nl80211Attr::WiphyFreqHint,
            202 => Nl80211Attr::MaxApAssocSta,
            203 => Nl80211Attr::TdlsPeerCapability,
            204 => Nl80211Attr::SocketOwner,
            205 => Nl80211Attr::CsaCOffsetsTx,
            206 => Nl80211Attr::MaxCsaCounters,
            207 => Nl80211Attr::TdlsInitiator,
            208 => Nl80211Attr::UseRrm,
            209 => Nl80211Attr::WiphyDynAck,
            210 => Nl80211Attr::Tsid,
            211 => Nl80211Attr::UserPrio,
            212 => Nl80211Attr::AdmittedTime,
            213 => Nl80211Attr::SmpsMode,
            214 => Nl80211Attr::OperClass,
            215 => Nl80211Attr::MacMask,
            216 => Nl80211Attr::WiphySelfManagedReg,
            217 => Nl80211Attr::ExtFeatures,
            218 => Nl80211Attr::SurveyRadioStats,
            219 => Nl80211Attr::NetnsFd,
            220 => Nl80211Attr::SchedScanDelay,
            221 => Nl80211Attr::RegIndoor,
            222 => Nl80211Attr::MaxNumSchedScanPlans,
            223 => Nl80211Attr::MaxScanPlanInterval,
            224 => Nl80211Attr::MaxScanPlanIterations,
            225 => Nl80211Attr::SchedScanPlans,
            226 => Nl80211Attr::Pbss,
            227 => Nl80211Attr::BssSelect,
            228 => Nl80211Attr::StaSupportP2pPs,
            229 => Nl80211Attr::Pad,
            230 => Nl80211Attr::IftypeExtCapa,
            231 => Nl80211Attr::MuMimoGroupData,
            232 => Nl80211Attr::MuMimoFollowMacAddr,
            233 => Nl80211Attr::ScanStartTimeTsf,
            234 => Nl80211Attr::ScanStartTimeTsfBssid,
            235 => Nl80211Attr::MeasurementDuration,
            236 => Nl80211Attr::MeasurementDurationMandatory,
            237 => Nl80211Attr::MeshPeerAid,
            238 => Nl80211Attr::NanMasterPref,
            239 => Nl80211Attr::NanDual,
            240 => Nl80211Attr::NanFunc,
            241 => Nl80211Attr::NanMatch,
            242 => Nl80211Attr::AfterLast,
            _ => Nl80211Attr::UnrecognizedConst(code),
        }
    }

    /// The code of a value.
    pub open spec fn spec_code(self) -> u16 {
        match self {
            Nl80211Attr::Unspec => 0,
            Nl80211Attr::Wiphy => 1,
            Nl80211Attr::WiphyName => 2,
            Nl80211Attr::Ifindex => 3,
            Nl80211Attr::Ifname => 4,
            Nl80211Attr::Iftype => 5,
            Nl80211Attr::Mac => 6,
            Nl80211Attr::KeyData => 7,
            Nl80211Attr::KeyIdx => 8,
            Nl80211Attr::KeyCipher => 9,
            Nl80211Attr::KeySeq => 10,
            Nl80211Attr::KeyDefault => 11,
            Nl80211Attr::BeaconInterval => 12,
            Nl80211Attr::DtimPeriod => 13,
            Nl80211Attr::BeaconHead => 14,
            Nl80211Attr::BeaconTail => 15,
            Nl80211Attr::StaAid => 16,
            Nl80211Attr::StaFlags => 17,
            Nl80211Attr::StaListenInterval => 18,
            Nl80211Attr::StaSupportedRates => 19,
            Nl80211Attr::StaVlan => 20,
            Nl80211Attr::StaInfo => 21,
            Nl80211Attr::WiphyBands => 22,
            Nl80211Attr::MntrFlags => 23,
            Nl80211Attr::MeshId => 24,
            Nl80211Attr::StaPlinkAction => 25,
            Nl80211Attr::MpathNextHop => 26,
            Nl80211Attr::MpathInfo => 27,
            Nl80211Attr::BssCtsProt => 28,
            Nl80211Attr::BssShortPreamble => 29,
            Nl80211Attr::BssShortSlotTime => 30,
            Nl80211Attr::HtCapability => 31,
            Nl80211Attr::SupportedIftypes => 32,
            Nl80211Attr::RegAlpha2 => 33,
            Nl80211Attr::RegRules => 34,
            Nl80211Attr::MeshConfig => 35,
            Nl80211Attr::BssBasicRates => 36,
            Nl80211Attr::WiphyTxqParams => 37,
            Nl80211Attr::WiphyFreq => 38,
            Nl80211Attr::WiphyChannelType => 39,
            Nl80211Attr::KeyDefaultMgmt => 40,
            Nl80211Attr::MgmtSubtype => 41,
            Nl80211Attr::Ie => 42,
            Nl80211Attr::MaxNumScanSsids => 43,
            Nl80211Attr::ScanFrequencies => 44,
            Nl80211Attr::ScanSsids => 45,
            Nl80211Attr::Generation => 46,
            Nl80211Attr::Bss => 47,
            Nl80211Attr::RegInitiator => 48,
            Nl80211Attr::RegType => 49,
            Nl80211Attr::SupportedCommands => 50,
            Nl80211Attr::Frame => 51,
            Nl80211Attr::Ssid => 52,
            Nl80211Attr::AuthType => 53,
            Nl80211Attr::ReasonCode => 54,
            Nl80211Attr::KeyType => 55,
            Nl80211Attr::MaxScanIeLen => 56,
            Nl80211Attr::CipherSuites => 57,
            Nl80211Attr::FreqBefore => 58,
            Nl80211Attr::FreqAfter => 59,
            Nl80211Attr::FreqFixed => 60,
            Nl80211Attr::WiphyRetryShort => 61,
            Nl80211Attr::WiphyRetryLong => 62,
            Nl80211Attr::WiphyFragThreshold => 63,
            Nl80211Attr::WiphyRtsThreshold => 64,
            Nl80211Attr::TimedOut => 65,
            Nl80211Attr::UseMfp => 66,
            Nl80211Attr::StaFlags2 => 67,
            Nl80211Attr::ControlPort => 68,
            Nl80211Attr::Testdata => 69,
            Nl80211Attr::Privacy => 70,
            Nl80211Attr::DisconnectedByAp => 71,
            Nl80211Attr::StatusCode => 72,
            Nl80211Attr::CipherSuitesPairwise => 73,
            Nl80211Attr::CipherSuiteGroup => 74,
            Nl80211Attr::WpaVersions => 75,
            Nl80211Attr::AkmSuites => 76,
            Nl80211Attr::ReqIe => 77,
            Nl80211Attr::RespIe => 78,
            Nl80211Attr::PrevBssid => 79,
            Nl80211Attr::Key => 80,
            Nl80211Attr::Keys => 81,
            Nl80211Attr::Pid => 82,
            Nl80211Attr::Addr4 => 83,
            Nl80211Attr::SurveyInfo => 84,
            Nl80211Attr::Pmkid => 85,
            Nl80211Attr::MaxNumPmkids => 86,
            Nl80211Attr::Duration => 87,
            Nl80211Attr::Cookie => 88,
            Nl80211Attr::WiphyCoverageClass => 89,
            Nl80211Attr::TxRates => 90,
            Nl80211Attr::FrameMatch => 91,
            Nl80211Attr::Ack => 92,
            Nl80211Attr::PsState => 93,
            Nl80211Attr::Cqm => 94,
            Nl80211Attr::LocalStateChange => 95,
            Nl80211Attr::ApIsolate => 96,
            Nl80211Attr::WiphyTxPowerSetting => 97,
            Nl80211Attr::WiphyTxPowerLevel => 98,
            Nl80211Attr::TxFrameTypes => 99,
            Nl80211Attr::RxFrameTypes => 100,
            Nl80211Attr::FrameType => 101,
            Nl80211Attr::ControlPortEthertype => 102,
            Nl80211Attr::ControlPortNoEncrypt => 103,
            Nl80211Attr::SupportIbssRsn => 104,
            Nl80211Attr::WiphyAntennaTx => 105,
            Nl80211Attr::WiphyAntennaRx => 106,
            Nl80211Attr::McastRate => 107,
            Nl80211Attr::OffchannelTxOk => 108,
            Nl80211Attr::BssHtOpmode => 109,
            Nl80211Attr::KeyDefaultTypes => 110,
            Nl80211Attr::MaxRemainOnChannelDuration => 111,
            Nl80211Attr::MeshSetup => 112,
            Nl80211Attr::WiphyAntennaAvailTx => 113,
            Nl80211Attr::WiphyAntennaAvailRx => 114,
            Nl80211Attr::SupportMeshAuth => 115,
            Nl80211Attr::StaPlinkState => 116,
            Nl80211Attr::WowlanTriggers => 117,
            Nl80211Attr::WowlanTriggersSupported => 118,
            Nl80211Attr::SchedScanInterval => 119,
            Nl80211Attr::InterfaceCombinations => 120,
            Nl80211Attr::SoftwareIftypes => 121,
            Nl80211Attr::RekeyData => 122,
            Nl80211Attr::MaxNumSchedScanSsids => 123,
            Nl80211Attr::MaxSchedScanIeLen => 124,
            Nl80211Attr::ScanSuppRates => 125,
            Nl80211Attr::HiddenSsid => 126,
            Nl80211Attr::IeProbeResp => 127,
            Nl80211Attr::IeAssocResp => 128,
            Nl80211Attr::StaWme => 129,
            Nl80211Attr::SupportApUapsd => 130,
            Nl80211Attr::RoamSupport => 131,
            Nl80211Attr::SchedScanMatch => 132,
            Nl80211Attr::MaxMatchSets => 133,
            Nl80211Attr::PmksaCandidate => 134,
            Nl80211Attr::TxNoCckRate => 135,
            Nl80211Attr::TdlsAction => 136,
            Nl80211Attr::TdlsDialogToken => 137,
            Nl80211Attr::TdlsOperation => 138,
            Nl80211Attr::TdlsSupport => 139,
            Nl80211Attr::TdlsExternalSetup => 140,
            Nl80211Attr::DeviceApSme => 141,
            Nl80211Attr::DontWaitForAck => 142,
            Nl80211Attr::FeatureFlags => 143,
            Nl80211Attr::ProbeRespOffload => 144,
            Nl80211Attr::ProbeResp => 145,
            Nl80211Attr::DfsRegion => 146,
            Nl80211Attr::DisableHt => 147,
            Nl80211Attr::HtCapabilityMask => 148,
            Nl80211Attr::NoackMap => 149,
            Nl80211Attr::InactivityTimeout => 150,
            Nl80211Attr::RxSignalDbm => 151,
            Nl80211Attr::BgScanPeriod => 152,
            Nl80211Attr::Wdev => 153,
            Nl80211Attr::UserRegHintType => 154,
            Nl80211Attr::ConnFailedReason => 155,
            Nl80211Attr::SaeData => 156,
            Nl80211Attr::VhtCapability => 157,
            Nl80211Attr::ScanFlags => 158,
            Nl80211Attr::ChannelWidth => 159,
            Nl80211Attr::CenterFreq1 => 160,
            Nl80211Attr::CenterFreq2 => 161,
            Nl80211Attr::P2pCtwindow => 162,
            Nl80211Attr::P2pOppps => 163,
            Nl80211Attr::LocalMeshPowerMode => 164,
            Nl80211Attr::AclPolicy => 165,
            Nl80211Attr::MacAddrs => 166,
            Nl80211Attr::MacAclMax => 167,
            Nl80211Attr::RadarEvent => 168,
            Nl80211Attr::ExtCapa => 169,
            Nl80211Attr::ExtCapaMask => 170,
            Nl80211Attr::StaCapability => 171,
            Nl80211Attr::StaExtCapability => 172,
            Nl80211Attr::ProtocolFeatures => 173,
            Nl80211Attr::SplitWiphyDump => 174,
            Nl80211Attr::DisableVht => 175,
            Nl80211Attr::VhtCapabilityMask => 176,
            Nl80211Attr::Mdid => 177,
            Nl80211Attr::IeRic => 178,
            Nl80211Attr::CritProtId => 179,
            Nl80211Attr::MaxCritProtDuration => 180,
            Nl80211Attr::PeerAid => 181,
            Nl80211Attr::CoalesceRule => 182,
            Nl80211Attr::ChSwitchCount => 183,
            Nl80211Attr::ChSwitchBlockTx => 184,
            Nl80211Attr::CsaIes => 185,
            Nl80211Attr::CsaCOffBeacon => 186,
            Nl80211Attr::CsaCOffPresp => 187,
            Nl80211Attr::RxmgmtFlags => 188,
            Nl80211Attr::StaSupportedChannels => 189,
            Nl80211Attr::StaSupportedOperClasses => 190,
            Nl80211Attr::HandleDfs => 191,
            Nl80211Attr::Support5Mhz => 192,
            Nl80211Attr::Support10Mhz => 193,
            Nl80211Attr::OpmodeNotif => 194,
            Nl80211Attr::VendorId => 195,
            Nl80211Attr::VendorSubcmd => 196,
            Nl80211Attr::VendorData => 197,
            Nl80211Attr::VendorEvents => 198,
            Nl80211Attr::QosMap => 199,
            Nl80211Attr::MacHint => 200,
            Nl80211Attr::WiphyFreqHint => 201,
            Nl80211Attr::MaxApAssocSta => 202,
            Nl80211Attr::TdlsPeerCapability => 203,
            Nl80211Attr::SocketOwner => 204,
            Nl80211Attr::CsaCOffsetsTx => 205,
            Nl80211Attr::MaxCsaCounters => 206,
            Nl80211Attr::TdlsInitiator => 207,
            Nl80211Attr::UseRrm => 208,
            Nl80211Attr::WiphyDynAck => 209,
            Nl80211Attr::Tsid => 210,
            Nl80211Attr::UserPrio => 211,
            Nl80211Attr::AdmittedTime => 212,
            Nl80211Attr::SmpsMode => 213,
            Nl80211Attr::OperClass => 214,
            Nl80211Attr::MacMask => 215,
            Nl80211Attr::WiphySelfManagedReg => 216,
            Nl80211Attr::ExtFeatures => 217,
            Nl80211Attr::SurveyRadioStats => 218,
            Nl80211Attr::NetnsFd => 219,
            Nl80211Attr::SchedScanDelay => 220,
            Nl80211Attr::RegIndoor => 221,
            Nl80211Attr::MaxNumSchedScanPlans => 222,
            Nl80211Attr::MaxScanPlanInterval => 223,
            Nl80211Attr::MaxScanPlanIterations => 224,
            Nl80211Attr::SchedScanPlans => 225,
            Nl80211Attr::Pbss => 226,
            Nl80211Attr::BssSelect => 227,
            Nl80211Attr::StaSupportP2pPs => 228,
            Nl80211Attr::Pad => 229,
            Nl80211Attr::IftypeExtCapa => 230,
            Nl80211Attr::MuMimoGroupData => 231,
            Nl80211Attr::MuMimoFollowMacAddr => 232,
            Nl80211Attr::ScanStartTimeTsf => 233,
            Nl80211Attr::ScanStartTimeTsfBssid => 234,
            Nl80211Attr::MeasurementDuration => 235,
            Nl80211Attr::MeasurementDurationMandatory => 236,
            Nl80211Attr::MeshPeerAid => 237,
            Nl80211Attr::NanMasterPref => 238,
            Nl80211Attr::NanDual => 239,
            Nl80211Attr::NanFunc => 240,
            Nl80211Attr::NanMatch => 241,
            Nl80211Attr::AfterLast => 242,
            Nl80211Attr::NumAttr => 242,
            Nl80211Attr::AttrMax => 241,
            Nl80211Attr::UnrecognizedConst(code) => code,
        }
    }

    /// Whether the value is none that the vocabulary names.
    pub fn is_unrecognized(&self) -> (r: bool)
        ensures
            r == (*self is UnrecognizedConst),
    {
        match self {
            Nl80211Attr::UnrecognizedConst(_) => true,
            _ => false,
        }
    }

    /// Every code is the code of the value it stands for.
    pub proof fn lemma_code_round_trip(code: u16)
        ensures
            Self::spec_from_code(code).spec_code() == code,
    {
    }
}

impl From<u16> for Nl80211Attr {
    fn from(code: u16) -> (value: Self) {
        match code {
            0 => Nl80211Attr::Unspec,
            1 => Nl80211Attr::Wiphy,
            2 => Nl80211Attr::WiphyName,
            3 => Nl80211Attr::Ifindex,
            4 => Nl80211Attr::Ifname,
            5 => Nl80211Attr::Iftype,
            6 => Nl80211Attr::Mac,
            7 => Nl80211Attr::KeyData,
            8 => Nl80211Attr::KeyIdx,
            9 => Nl80211Attr::KeyCipher,
            10 => Nl80211Attr::KeySeq,
            11 => Nl80211Attr::KeyDefault,
            12 => Nl80211Attr::BeaconInterval,
            13 => Nl80211Attr::DtimPeriod,
            14 => Nl80211Attr::BeaconHead,
            15 => Nl80211Attr::BeaconTail,
            16 => Nl80211Attr::StaAid,
            17 => Nl80211Attr::StaFlags,
            18 => Nl80211Attr::StaListenInterval,
            19 => Nl80211Attr::StaSupportedRates,
            20 => Nl80211Attr::StaVlan,
            21 => Nl80211Attr::StaInfo,
            22 => Nl80211Attr::WiphyBands,
            23 => Nl80211Attr::MntrFlags,
            24 => Nl80211Attr::MeshId,
            25 => Nl80211Attr::StaPlinkAction,
            26 => Nl80211Attr::MpathNextHop,
            27 => Nl80211Attr::MpathInfo,
            28 => Nl80211Attr::BssCtsProt,
            29 => Nl80211Attr::BssShortPreamble,
            30 => Nl80211Attr::BssShortSlotTime,
            31 => Nl80211Attr::HtCapability,
            32 => Nl80211Attr::SupportedIftypes,
            33 => Nl80211Attr::RegAlpha2,
            34 => Nl80211Attr::RegRules,
            35 => Nl80211Attr::MeshConfig,
            36 => Nl80211Attr::BssBasicRates,
            37 => Nl80211Attr::WiphyTxqParams,
            38 => Nl80211Attr::WiphyFreq,
            39 => Nl80211Attr::WiphyChannelType,
            40 => Nl80211Attr::KeyDefaultMgmt,
            41 => Nl80211Attr::MgmtSubtype,
            42 => Nl80211Attr::Ie,
            43 => Nl80211Attr::MaxNumScanSsids,
            44 => Nl80211Attr::ScanFrequencies,
            45 => Nl80211Attr::ScanSsids,
            46 => Nl80211Attr::Generation,
            47 => Nl80211Attr::Bss,
            48 => Nl80211Attr::RegInitiator,
            49 => Nl80211Attr::RegType,
            50 => Nl80211Attr::SupportedCommands,
            51 => Nl80211Attr::Frame,
            52 => Nl80211Attr::Ssid,
            53 => Nl80211Attr::AuthType,
            54 => Nl80211Attr::ReasonCode,
            55 => Nl80211Attr::KeyType,
            56 => Nl80211Attr::MaxScanIeLen,
            57 => Nl80211Attr::CipherSuites,
            58 => Nl80211Attr::FreqBefore,
            59 => Nl80211Attr::FreqAfter,
            60 => Nl80211Attr::FreqFixed,
            61 => Nl80211Attr::WiphyRetryShort,
            62 => Nl80211Attr::WiphyRetryLong,
            63 => Nl80211Attr::WiphyFragThreshold,
            64 => Nl80211Attr::WiphyRtsThreshold,
            65 => Nl80211Attr::TimedOut,
            66 => Nl80211Attr::UseMfp,
            67 => Nl80211Attr::StaFlags2,
            68 => Nl80211Attr::ControlPort,
            69 => Nl80211Attr::Testdata,
            70 => Nl80211Attr::Privacy,
            71 => Nl80211Attr::DisconnectedByAp,
            72 => Nl80211Attr::StatusCode,
            73 => Nl80211Attr::CipherSuitesPairwise,
            74 => Nl80211Attr::CipherSuiteGroup,
            75 => Nl80211Attr::WpaVersions,
            76 => Nl80211Attr::AkmSuites,
            77 => Nl80211Attr::ReqIe,
            78 => Nl80211Attr::RespIe,
            79 => Nl80211Attr::PrevBssid,
            80 => Nl80211Attr::Key,
            81 => Nl80211Attr::Keys,
            82 => Nl80211Attr::Pid,
            83 => Nl80211Attr::Addr4,
            84 => Nl80211Attr::SurveyInfo,
            85 => Nl80211Attr::Pmkid,
            86 => Nl80211Attr::MaxNumPmkids,
            87 => Nl80211Attr::Duration,
            88 => Nl80211Attr::Cookie,
            89 => Nl80211Attr::WiphyCoverageClass,
            90 => Nl80211Attr::TxRates,
            91 => Nl80211Attr::FrameMatch,
            92 => Nl80211Attr::Ack,
            93 => Nl80211Attr::PsState,
            94 => Nl80211Attr::Cqm,
            95 => Nl80211Attr::LocalStateChange,
            96 => Nl80211Attr::ApIsolate,
            97 => Nl80211Attr::WiphyTxPowerSetting,
            98 => Nl80211Attr::WiphyTxPowerLevel,
            99 => Nl80211Attr::TxFrameTypes,
            100 => Nl80211Attr::RxFrameTypes,
            101 => Nl80211Attr::FrameType,
            102 => Nl80211Attr::ControlPortEthertype,
            103 => Nl80211Attr::ControlPortNoEncrypt,
            104 => Nl80211Attr::SupportIbssRsn,
            105 => Nl80211Attr::WiphyAntennaTx,
            106 => Nl80211Attr::WiphyAntennaRx,
            107 => Nl80211Attr::McastRate,
            108 => Nl80211Attr::OffchannelTxOk,
            109 => Nl80211Attr::BssHtOpmode,
            110 => Nl80211Attr::KeyDefaultTypes,
            111 => Nl80211Attr::MaxRemainOnChannelDuration,
            112 => Nl80211Attr::MeshSetup,
            113 => Nl80211Attr::WiphyAntennaAvailTx,
            114 => Nl80211Attr::WiphyAntennaAvailRx,
            115 => Nl80211Attr::SupportMeshAuth,
            116 => Nl80211Attr::StaPlinkState,
            117 => Nl80211Attr::WowlanTriggers,
            118 => Nl80211Attr::WowlanTriggersSupported,
            119 => Nl80211Attr::SchedScanInterval,
            120 => Nl80211Attr::InterfaceCombinations,
            121 => Nl80211Attr::SoftwareIftypes,
            122 => Nl80211Attr::RekeyData,
            123 => Nl80211Attr::MaxNumSchedScanSsids,
            124 => Nl80211Attr::MaxSchedScanIeLen,
            125 => Nl80211Attr::ScanSuppRates,
            126 => Nl80211Attr::HiddenSsid,
            127 => Nl80211Attr::IeProbeResp,
            128 => Nl80211Attr::IeAssocResp,
            129 => Nl80211Attr::StaWme,
            130 => Nl80211Attr::SupportApUapsd,
            131 => Nl80211Attr::RoamSupport,
            132 => Nl80211Attr::SchedScanMatch,
            133 => Nl80211Attr::MaxMatchSets,
            134 => Nl80211Attr::PmksaCandidate,
            135 => Nl80211Attr::TxNoCckRate,
            136 => Nl80211Attr::TdlsAction,
            137 => Nl80211Attr::TdlsDialogToken,
            138 => Nl80211Attr::TdlsOperation,
            139 => Nl80211Attr::TdlsSupport,
            140 => Nl80211Attr::TdlsExternalSetup,
            141 => Nl80211Attr::DeviceApSme,
            142 => Nl80211Attr::DontWaitForAck,
            143 => Nl80211Attr::FeatureFlags,
            144 => Nl80211Attr::ProbeRespOffload,
            145 => Nl80211Attr::ProbeResp,
            146 => Nl80211Attr::DfsRegion,
            147 => Nl80211Attr::DisableHt,
            148 => Nl80211Attr::HtCapabilityMask,
            149 => Nl80211Attr::NoackMap,
            150 => Nl80211Attr::InactivityTimeout,
            151 => Nl80211Attr::RxSignalDbm,
            152 => Nl80211Attr::BgScanPeriod,
            153 => Nl80211Attr::Wdev,
            154 => Nl80211Attr::UserRegHintType,
            155 => Nl80211Attr::ConnFailedReason,
            156 => Nl80211Attr::SaeData,
            157 => Nl80211Attr::VhtCapability,
            158 => Nl80211Attr::ScanFlags,
            159 => Nl80211Attr::ChannelWidth,
            160 => Nl80211Attr::CenterFreq1,
            161 => Nl80211Attr::CenterFreq2,
            162 => Nl80211Attr::P2pCtwindow,
            163 => Nl80211Attr::P2pOppps,
            164 => Nl80211Attr::LocalMeshPowerMode,
            165 => Nl80211Attr::AclPolicy,
            166 => Nl80211Attr::MacAddrs,
            167 => Nl80211Attr::MacAclMax,
            168 => Nl80211Attr::RadarEvent,
            169 => Nl80211Attr::ExtCapa,
            170 => Nl80211Attr::ExtCapaMask,
            171 => Nl80211Attr::StaCapability,
            172 => Nl80211Attr::StaExtCapability,
            173 => Nl80211Attr::ProtocolFeatures,
            174 => Nl80211Attr::SplitWiphyDump,
            175 => Nl80211Attr::DisableVht,
            176 => Nl80211Attr::VhtCapabilityMask,
            177 => Nl80211Attr::Mdid,
            178 => Nl80211Attr::IeRic,
            179 => Nl80211Attr::CritProtId,
            180 => Nl80211Attr::MaxCritProtDuration,
            181 => Nl80211Attr::PeerAid,
            182 => Nl80211Attr::CoalesceRule,
            183 => Nl80211Attr::ChSwitchCount,
            184 => Nl80211Attr::ChSwitchBlockTx,
            185 => Nl80211Attr::CsaIes,
            186 => Nl80211Attr::CsaCOffBeacon,
            187 => Nl80211Attr::CsaCOffPresp,
            188 => Nl80211Attr::RxmgmtFlags,
            189 => Nl80211Attr::StaSupportedChannels,
            190 => Nl80211Attr::StaSupportedOperClasses,
            191 => Nl80211Attr::HandleDfs,
            192 => Nl80211Attr::Support5Mhz,
            193 => Nl80211Attr::Support10Mhz,
            194 => Nl80211Attr::OpmodeNotif,
            195 => Nl80211Attr::VendorId,
            196 => Nl80211Attr::VendorSubcmd,
            197 => Nl80211Attr::VendorData,
            198 => Nl80211Attr::VendorEvents,
            199 => Nl80211Attr::QosMap,
            200 => Nl80211Attr::MacHint,
            201 => Nl80211Attr::WiphyFreqHint,
            202 => Nl80211Attr::MaxApAssocSta,
            203 => Nl80211Attr::TdlsPeerCapability,
            204 => Nl80211Attr::SocketOwner,
            205 => Nl80211Attr::CsaCOffsetsTx,
            206 => Nl80211Attr::MaxCsaCounters,
            207 => Nl80211Attr::TdlsInitiator,
            208 => Nl80211Attr::UseRrm,
            209 => Nl80211Attr::WiphyDynAck,
            210 => Nl80211Attr::Tsid,
            211 => Nl80211Attr::UserPrio,
            212 => Nl80211Attr::AdmittedTime,
            213 => Nl80211Attr::SmpsMode,
            214 => Nl80211Attr::OperClass,
            215 => Nl80211Attr::MacMask,
            216 => Nl80211Attr::WiphySelfManagedReg,
            217 => Nl80211Attr::ExtFeatures,
            218 => Nl80211Attr::SurveyRadioStats,
            219 => Nl80211Attr::NetnsFd,
            220 => Nl80211Attr::SchedScanDelay,
            221 => Nl80211Attr::RegIndoor,
            222 => Nl80211Attr::MaxNumSchedScanPlans,
            223 => Nl80211Attr::MaxScanPlanInterval,
            224 => Nl80211Attr::MaxScanPlanIterations,
            225 => Nl80211Attr::SchedScanPlans,
            226 => Nl80211Attr::Pbss,
            227 => Nl80211Attr::BssSelect,
            228 => Nl80211Attr::StaSupportP2pPs,
            229 => Nl80211Attr::Pad,
            230 => Nl80211Attr::IftypeExtCapa,
            231 => Nl80211Attr::MuMimoGroupData,
            232 => Nl80211Attr::MuMimoFollowMacAddr,
            233 => Nl80211Attr::ScanStartTimeTsf,
            234 => Nl80211Attr::ScanStartTimeTsfBssid,
            235 => Nl80211Attr::MeasurementDuration,
            236 => Nl80211Attr::MeasurementDurationMandatory,
            237 => Nl80211Attr::MeshPeerAid,
            238 => Nl80211Attr::NanMasterPref,
            239 => Nl80211Attr::NanDual,
            240 => Nl80211Attr::NanFunc,
            241 => Nl80211Attr::NanMatch,
            242 => Nl80211Attr::AfterLast,
            _ => Nl80211Attr::UnrecognizedConst(code),
        }
    }
}

impl FromSpecImpl<u16> for Nl80211Attr {
    open spec fn obeys_from_spec() -> bool {
        true
    }

    open spec fn from_spec(code: u16) -> Self {
        Self::spec_from_code(code)
    }
}

impl From<Nl80211Attr> for u16 {
    fn from(value: Nl80211Attr) -> (code: u16) {
        match value {
            Nl80211Attr::Unspec => 0,
            Nl80211Attr::Wiphy => 1,
            Nl80211Attr::WiphyName => 2,
            Nl80211Attr::Ifindex => 3,
            Nl80211Attr::Ifname => 4,
            Nl80211Attr::Iftype => 5,
            Nl80211Attr::Mac => 6,
            Nl80211Attr::KeyData => 7,
            Nl80211Attr::KeyIdx => 8,
            Nl80211Attr::KeyCipher => 9,
            Nl80211Attr::KeySeq => 10,
            Nl80211Attr::KeyDefault => 11,
            Nl80211Attr::BeaconInterval => 12,
            Nl80211Attr::DtimPeriod => 13,
            Nl80211Attr::BeaconHead => 14,
            Nl80211Attr::BeaconTail => 15,
            Nl80211Attr::StaAid => 16,
            Nl80211Attr::StaFlags => 17,
            Nl80211Attr::StaListenInterval => 18,
            Nl80211Attr::StaSupportedRates => 19,
            Nl80211Attr::StaVlan => 20,
            Nl80211Attr::StaInfo => 21,
            Nl80211Attr::WiphyBands => 22,
            Nl80211Attr::MntrFlags => 23,
            Nl80211Attr::MeshId => 24,
            Nl80211Attr::StaPlinkAction => 25,
            Nl80211Attr::MpathNextHop => 26,
            Nl80211Attr::MpathInfo => 27,
            Nl80211Attr::BssCtsProt => 28,
            Nl80211Attr::BssShortPreamble => 29,
            Nl80211Attr::BssShortSlotTime => 30,
            Nl80211Attr::HtCapability => 31,
            Nl80211Attr::SupportedIftypes => 32,
            Nl80211Attr::RegAlpha2 => 33,
            Nl80211Attr::RegRules => 34,
            Nl80211Attr::MeshConfig => 35,
            Nl80211Attr::BssBasicRates => 36,
            Nl80211Attr::WiphyTxqParams => 37,
            Nl80211Attr::WiphyFreq => 38,
            Nl80211Attr::WiphyChannelType => 39,
            Nl80211Attr::KeyDefaultMgmt => 40,
            Nl80211Attr::MgmtSubtype => 41,
            Nl80211Attr::Ie => 42,
            Nl80211Attr::MaxNumScanSsids => 43,
            Nl80211Attr::ScanFrequencies => 44,
            Nl80211Attr::ScanSsids => 45,
            Nl80211Attr::Generation => 46,
            Nl80211Attr::Bss => 47,
            Nl80211Attr::RegInitiator => 48,
            Nl80211Attr::RegType => 49,
            Nl80211Attr::SupportedCommands => 50,
            Nl80211Attr::Frame => 51,
            Nl80211Attr::Ssid => 52,
            Nl80211Attr::AuthType => 53,
            Nl80211Attr::ReasonCode => 54,
            Nl80211Attr::KeyType => 55,
            Nl80211Attr::MaxScanIeLen => 56,
            Nl80211Attr::CipherSuites => 57,
            Nl80211Attr::FreqBefore => 58,
            Nl80211Attr::FreqAfter => 59,
            Nl80211Attr::FreqFixed => 60,
            Nl80211Attr::WiphyRetryShort => 61,
            Nl80211Attr::WiphyRetryLong => 62,
            Nl80211Attr::WiphyFragThreshold => 63,
            Nl80211Attr::WiphyRtsThreshold => 64,
            Nl80211Attr::TimedOut => 65,
            Nl80211Attr::UseMfp => 66,
            Nl80211Attr::StaFlags2 => 67,
            Nl80211Attr::ControlPort => 68,
            Nl80211Attr::Testdata => 69,
            Nl80211Attr::Privacy => 70,
            Nl80211Attr::DisconnectedByAp => 71,
            Nl80211Attr::StatusCode => 72,
            Nl80211Attr::CipherSuitesPairwise => 73,
            Nl80211Attr::CipherSuiteGroup => 74,
            Nl80211Attr::WpaVersions => 75,
            Nl80211Attr::AkmSuites => 76,
            Nl80211Attr::ReqIe => 77,
            Nl80211Attr::RespIe => 78,
            Nl80211Attr::PrevBssid => 79,
            Nl80211Attr::Key => 80,
            Nl80211Attr::Keys => 81,
            Nl80211Attr::Pid => 82,
            Nl80211Attr::Addr4 => 83,
            Nl80211Attr::SurveyInfo => 84,
            Nl80211Attr::Pmkid => 85,
            Nl80211Attr::MaxNumPmkids => 86,
            Nl80211Attr::Duration => 87,
            Nl80211Attr::Cookie => 88,
            Nl80211Attr::WiphyCoverageClass => 89,
            Nl80211Attr::TxRates => 90,
            Nl80211Attr::FrameMatch => 91,
            Nl80211Attr::Ack => 92,
            Nl80211Attr::PsState => 93,
            Nl80211Attr::Cqm => 94,
            Nl80211Attr::LocalStateChange => 95,
            Nl80211Attr::ApIsolate => 96,
            Nl80211Attr::WiphyTxPowerSetting => 97,
            Nl80211Attr::WiphyTxPowerLevel => 98,
            Nl80211Attr::TxFrameTypes => 99,
            Nl80211Attr::RxFrameTypes => 100,
            Nl80211Attr::FrameType => 101,
            Nl80211Attr::ControlPortEthertype => 102,
            Nl80211Attr::ControlPortNoEncrypt => 103,
            Nl80211Attr::SupportIbssRsn => 104,
            Nl80211Attr::WiphyAntennaTx => 105,
            Nl80211Attr::WiphyAntennaRx => 106,
            Nl80211Attr::McastRate => 107,
            Nl80211Attr::OffchannelTxOk => 108,
            Nl80211Attr::BssHtOpmode => 109,
            Nl80211Attr::KeyDefaultTypes => 110,
            Nl80211Attr::MaxRemainOnChannelDuration => 111,
            Nl80211Attr::MeshSetup => 112,
            Nl80211Attr::WiphyAntennaAvailTx => 113,
            Nl80211Attr::WiphyAntennaAvailRx => 114,
            Nl80211Attr::SupportMeshAuth => 115,
            Nl80211Attr::StaPlinkState => 116,
            Nl80211Attr::WowlanTriggers => 117,
            Nl80211Attr::WowlanTriggersSupported => 118,
            Nl80211Attr::SchedScanInterval => 119,
            Nl80211Attr::InterfaceCombinations => 120,
            Nl80211Attr::SoftwareIftypes => 121,
            Nl80211Attr::RekeyData => 122,
            Nl80211Attr::MaxNumSchedScanSsids => 123,
            Nl80211Attr::MaxSchedScanIeLen => 124,
            Nl80211Attr::ScanSuppRates => 125,
            Nl80211Attr::HiddenSsid => 126,
            Nl80211Attr::IeProbeResp => 127,
            Nl80211Attr::IeAssocResp => 128,
            Nl80211Attr::StaWme => 129,
            Nl80211Attr::SupportApUapsd => 130,
            Nl80211Attr::RoamSupport => 131,
            Nl80211Attr::SchedScanMatch => 132,
            Nl80211Attr::MaxMatchSets => 133,
            Nl80211Attr::PmksaCandidate => 134,
            Nl80211Attr::TxNoCckRate => 135,
            Nl80211Attr::TdlsAction => 136,
            Nl80211Attr::TdlsDialogToken => 137,
            Nl80211Attr::TdlsOperation => 138,
            Nl80211Attr::TdlsSupport => 139,
            Nl80211Attr::TdlsExternalSetup => 140,
            Nl80211Attr::DeviceApSme => 141,
            Nl80211Attr::DontWaitForAck => 142,
            Nl80211Attr::FeatureFlags => 143,
            Nl80211Attr::ProbeRespOffload => 144,
            Nl80211Attr::ProbeResp => 145,
            Nl80211Attr::DfsRegion => 146,
            Nl80211Attr::DisableHt => 147,
            Nl80211Attr::HtCapabilityMask => 148,
            Nl80211Attr::NoackMap => 149,
            Nl80211Attr::InactivityTimeout => 150,
            Nl80211Attr::RxSignalDbm => 151,
            Nl80211Attr::BgScanPeriod => 152,
            Nl80211Attr::Wdev => 153,
            Nl80211Attr::UserRegHintType => 154,
            Nl80211Attr::ConnFailedReason => 155,
            Nl80211Attr::SaeData => 156,
            Nl80211Attr::VhtCapability => 157,
            Nl80211Attr::ScanFlags => 158,
            Nl80211Attr::ChannelWidth => 159,
            Nl80211Attr::CenterFreq1 => 160,
            Nl80211Attr::CenterFreq2 => 161,
            Nl80211Attr::P2pCtwindow => 162,
            Nl80211Attr::P2pOppps => 163,
            Nl80211Attr::LocalMeshPowerMode => 164,
            Nl80211Attr::AclPolicy => 165,
            Nl80211Attr::MacAddrs => 166,
            Nl80211Attr::MacAclMax => 167,
            Nl80211Attr::RadarEvent => 168,
            Nl80211Attr::ExtCapa => 169,
            Nl80211Attr::ExtCapaMask => 170,
            Nl80211Attr::StaCapability => 171,
            Nl80211Attr::StaExtCapability => 172,
            Nl80211Attr::ProtocolFeatures => 173,
            Nl80211Attr::SplitWiphyDump => 174,
            Nl80211Attr::DisableVht => 175,
            Nl80211Attr::VhtCapabilityMask => 176,
            Nl80211Attr::Mdid => 177,
            Nl80211Attr::IeRic => 178,
            Nl80211Attr::CritProtId => 179,
            Nl80211Attr::MaxCritProtDuration => 180,
            Nl80211Attr::PeerAid => 181,
            Nl80211Attr::CoalesceRule => 182,
            Nl80211Attr::ChSwitchCount => 183,
            Nl80211Attr::ChSwitchBlockTx => 184,
            Nl80211Attr::CsaIes => 185,
            Nl80211Attr::CsaCOffBeacon => 186,
            Nl80211Attr::CsaCOffPresp => 187,
            Nl80211Attr::RxmgmtFlags => 188,
            Nl80211Attr::StaSupportedChannels => 189,
            Nl80211Attr::StaSupportedOperClasses => 190,
            Nl80211Attr::HandleDfs => 191,
            Nl80211Attr::Support5Mhz => 192,
            Nl80211Attr::Support10Mhz => 193,
            Nl80211Attr::OpmodeNotif => 194,
            Nl80211Attr::VendorId => 195,
            Nl80211Attr::VendorSubcmd => 196,
            Nl80211Attr::VendorData => 197,
            Nl80211Attr::VendorEvents => 198,
            Nl80211Attr::QosMap => 199,
            Nl80211Attr::MacHint => 200,
            Nl80211Attr::WiphyFreqHint => 201,
            Nl80211Attr::MaxApAssocSta => 202,
            Nl80211Attr::TdlsPeerCapability => 203,
            Nl80211Attr::SocketOwner => 204,
            Nl80211Attr::CsaCOffsetsTx => 205,
            Nl80211Attr::MaxCsaCounters => 206,
            Nl80211Attr::TdlsInitiator => 207,
            Nl80211Attr::UseRrm => 208,
            Nl80211Attr::WiphyDynAck => 209,
            Nl80211Attr::Tsid => 210,
            Nl80211Attr::UserPrio => 211,
            Nl80211Attr::AdmittedTime => 212,
            Nl80211Attr::SmpsMode => 213,
            Nl80211Attr::OperClass => 214,
            Nl80211Attr::MacMask => 215,
            Nl80211Attr::WiphySelfManagedReg => 216,
            Nl80211Attr::ExtFeatures => 217,
            Nl80211Attr::SurveyRadioStats => 218,
            Nl80211Attr::NetnsFd => 219,
            Nl80211Attr::SchedScanDelay => 220,
            Nl80211Attr::RegIndoor => 221,
            Nl80211Attr::MaxNumSchedScanPlans => 222,
            Nl80211Attr::MaxScanPlanInterval => 223,
            Nl80211Attr::MaxScanPlanIterations => 224,
            Nl80211Attr::SchedScanPlans => 225,
            Nl80211Attr::Pbss => 226,
            Nl80211Attr::BssSelect => 227,
            Nl80211Attr::StaSupportP2pPs => 228,
            Nl80211Attr::Pad => 229,
            Nl80211Attr::IftypeExtCapa => 230,
            Nl80211Attr::MuMimoGroupData => 231,
            Nl80211Attr::MuMimoFollowMacAddr => 232,
            Nl80211Attr::ScanStartTimeTsf => 233,
            Nl80211Attr::ScanStartTimeTsfBssid => 234,
            Nl80211Attr::MeasurementDuration => 235,
            Nl80211Attr::MeasurementDurationMandatory => 236,
            Nl80211Attr::MeshPeerAid => 237,
            Nl80211Attr::NanMasterPref => 238,
            Nl80211Attr::NanDual => 239,
            Nl80211Attr::NanFunc => 240,
            Nl80211Attr::NanMatch => 241,
            Nl80211Attr::AfterLast => 242,
            Nl80211Attr::NumAttr => 242,
            Nl80211Attr::AttrMax => 241,
            Nl80211Attr::UnrecognizedConst(code) => code,
        }
    }
}

impl FromSpecImpl<Nl80211Attr> for u16 {
    open spec fn obeys_from_spec() -> bool {
        true
    }

    open spec fn from_spec(value: Nl80211Attr) -> u16 {
        value.spec_code()
    }
}

/// The kernel's `nl80211_iftype` enumeration.
#[derive(Clone, Copy, Debug, PartialEq, Eq, PartialOrd, Ord, Hash, Structural)]
pub enum Nl80211Iftype {
    IftypeUnspecified,
    IftypeAdhoc,
    IftypeStation,
    IftypeAp,
    IftypeApVlan,
    IftypeWds,
    IftypeMonitor,
    IftypeMeshPoint,
    IftypeP2pClient,
    IftypeP2pGo,
    IftypeP2pDevice,
    IftypeOcb,
    IftypeNan,
    NumIftypes,
    IftypeMax,
    UnrecognizedConst(u16),
}

impl Nl80211Iftype {
    /// The value that a code stands for; where two names share a code, the
    /// first of them.
    pub open spec fn spec_from_code(code: u16) -> Self {
        match code {
            0 => Nl80211Iftype::IftypeUnspecified,
            1 => Nl80211Iftype::IftypeAdhoc,
            2 => Nl80211Iftype::IftypeStation,
            3 => Nl80211Iftype::IftypeAp,
            4 => Nl80211Iftype::IftypeApVlan,
            5 => Nl80211Iftype::IftypeWds,
            6 => Nl80211Iftype::IftypeMonitor,
            7 => Nl80211Iftype::IftypeMeshPoint,
            8 => Nl80211Iftype::IftypeP2pClient,
            9 => Nl80211Iftype::IftypeP2pGo,
            10 => Nl80211Iftype::IftypeP2pDevice,
            11 => Nl80211Iftype::IftypeOcb,
            12 => Nl80211Iftype::IftypeNan,
            13 => Nl80211Iftype::NumIftypes,
            _ => Nl80211Iftype::UnrecognizedConst(code),
        }
    }

    /// The code of a value.
    pub open spec fn spec_code(self) -> u16 {
        match self {
            Nl80211Iftype::IftypeUnspecified => 0,
            Nl80211Iftype::IftypeAdhoc => 1,
            Nl80211Iftype::IftypeStation => 2,
            Nl80211Iftype::IftypeAp => 3,
            Nl80211Iftype::IftypeApVlan => 4,
            Nl80211Iftype::IftypeWds => 5,
            Nl80211Iftype::IftypeMonitor => 6,
            Nl80211Iftype::IftypeMeshPoint => 7,
            Nl80211Iftype::IftypeP2pClient => 8,
            Nl80211Iftype::IftypeP2pGo => 9,
            Nl80211Iftype::IftypeP2pDevice => 10,
            Nl80211Iftype::IftypeOcb => 11,
            Nl80211Iftype::IftypeNan => 12,
            Nl80211Iftype::NumIftypes => 13,
            Nl80211Iftype::IftypeMax => 12,
            Nl80211Iftype::UnrecognizedConst(code) => code,
        }
    }

    /// Whether the value is none that the vocabulary names.
    pub fn is_unrecognized(&self) -> (r: bool)
        ensures
            r == (*self is UnrecognizedConst),
    {
        match self {
            Nl80211Iftype::UnrecognizedConst(_) => true,
            _ => false,
        }
    }

    /// Every code is the code of the value it stands for.
    pub proof fn lemma_code_round_trip(code: u16)
        ensures
            Self::spec_from_code(code).spec_code() == code,
    {
    }
}

impl From<u16> for Nl80211Iftype {
    fn from(code: u16) -> (value: Self) {
        match code {
            0 => Nl80211Iftype::IftypeUnspecified,
            1 => Nl80211Iftype::IftypeAdhoc,
            2 => Nl80211Iftype::IftypeStation,
            3 => Nl80211Iftype::IftypeAp,
            4 => Nl80211Iftype::IftypeApVlan,
            5 => Nl80211Iftype::IftypeWds,
            6 => Nl80211Iftype::IftypeMonitor,
            7 => Nl80211Iftype::IftypeMeshPoint,
            8 => Nl80211Iftype::IftypeP2pClient,
            9 => Nl80211Iftype::IftypeP2pGo,
            10 => Nl80211Iftype::IftypeP2pDevice,
            11 => Nl80211Iftype::IftypeOcb,
            12 => Nl80211Iftype::IftypeNan,
            13 => Nl80211Iftype::NumIftypes,
            _ => Nl80211Iftype::UnrecognizedConst(code),
        }
    }
}

impl FromSpecImpl<u16> for Nl80211Iftype {
    open spec fn obeys_from_spec() -> bool {
        true
    }

    open spec fn from_spec(code: u16) -> Self {
        Self::spec_from_code(code)
    }
}

impl From<Nl80211Iftype> for u16 {
    fn from(value: Nl80211Iftype) -> (code: u16) {
        match value {
            Nl80211Iftype::IftypeUnspecified => 0,
            Nl80211Iftype::IftypeAdhoc => 1,
            Nl80211Iftype::IftypeStation => 2,
            Nl80211Iftype::IftypeAp => 3,
            Nl80211Iftype::IftypeApVlan => 4,
            Nl80211Iftype::IftypeWds => 5,
            Nl80211Iftype::IftypeMonitor => 6,
            Nl80211Iftype::IftypeMeshPoint => 7,
            Nl80211Iftype::IftypeP2pClient => 8,
            Nl80211Iftype::IftypeP2pGo => 9,
            Nl80211Iftype::IftypeP2pDevice => 10,
            Nl80211Iftype::IftypeOcb => 11,
            Nl80211Iftype::IftypeNan => 12,
            Nl80211Iftype::NumIftypes => 13,
            Nl80211Iftype::IftypeMax => 12,
            Nl80211Iftype::UnrecognizedConst(code) => code,
        }
    }
}

impl FromSpecImpl<Nl80211Iftype> for u16 {
    open spec fn obeys_from_spec() -> bool {
        true
    }

    open spec fn from_spec(value: Nl80211Iftype) -> u16 {
        value.spec_code()
    }
}

/// The kernel's `nl80211_sta_flags` enumeration.
#[derive(Clone, Copy, Debug, PartialEq, Eq, PartialOrd, Ord, Hash, Structural)]
pub enum Nl80211StaFlags {
    StaFlagInvalid,
    StaFlagAuthorized,
    StaFlagShortPreamble,
    StaFlagWme,
    StaFlagMfp,
    StaFlagAuthenticated,
    StaFlagTdlsPeer,
    StaFlagAssociated,
    StaFlagAfterLast,
    StaFlagMax,
    UnrecognizedConst(u16),
}

impl Nl80211StaFlags {
    /// The value that a code stands for; where two names share a code, the
    /// first of them.
    pub open spec fn spec_from_code(code: u16) -> Self {
        match code {
            0 => Nl80211StaFlags::StaFlagInvalid,
            1 => Nl80211StaFlags::StaFlagAuthorized,
            2 => Nl80211StaFlags::StaFlagShortPreamble,
            3 => Nl80211StaFlags::StaFlagWme,
            4 => Nl80211StaFlags::StaFlagMfp,
            5 => Nl80211StaFlags::StaFlagAuthenticated,
            6 => Nl80211StaFlags::StaFlagTdlsPeer,
            7 => Nl80211StaFlags::StaFlagAssociated,
            8 => Nl80211StaFlags::StaFlagAfterLast,
            _ => Nl80211StaFlags::UnrecognizedConst(code),
        }
    }

    /// The code of a value.
    pub open spec fn spec_code(self) -> u16 {
        match self {
            Nl80211StaFlags::StaFlagInvalid => 0,
            Nl80211StaFlags::StaFlagAuthorized => 1,
            Nl80211StaFlags::StaFlagShortPreamble => 2,
            Nl80211StaFlags::StaFlagWme => 3,
            Nl80211StaFlags::StaFlagMfp => 4,
            Nl80211StaFlags::StaFlagAuthenticated => 5,
            Nl80211StaFlags::StaFlagTdlsPeer => 6,
            Nl80211StaFlags::StaFlagAssociated => 7,
            Nl80211StaFlags::StaFlagAfterLast => 8,
            Nl80211StaFlags::StaFlagMax => 7,
            Nl80211StaFlags::UnrecognizedConst(code) => code,
        }
    }

    /// Whether the value is none that the vocabulary names.
    pub fn is_unrecognized(&self) -> (r: bool)
        ensures
            r == (*self is UnrecognizedConst),
    {
        match self {
            Nl80211StaFlags::UnrecognizedConst(_) => true,
            _ => false,
        }
    }

    /// Every code is the code of the value it stands for.
    pub proof fn lemma_code_round_trip(code: u16)
        ensures
            Self::spec_from_code(code).spec_code() == code,
    {
    }
}

impl From<u16> for Nl80211StaFlags {
    fn from(code: u16) -> (value: Self) {
        match code {
            0 => Nl80211StaFlags::StaFlagInvalid,
            1 => Nl80211StaFlags::StaFlagAuthorized,
            2 => Nl80211StaFlags::StaFlagShortPreamble,
            3 => Nl80211StaFlags::StaFlagWme,
            4 => Nl80211StaFlags::StaFlagMfp,
            5 => Nl80211StaFlags::StaFlagAuthenticated,
            6 => Nl80211StaFlags::StaFlagTdlsPeer,
            7 => Nl80211StaFlags::StaFlagAssociated,
            8 => Nl80211StaFlags::StaFlagAfterLast,
            _ => Nl80211StaFlags::UnrecognizedConst(code),
        }
    }
}

impl FromSpecImpl<u16> for Nl80211StaFlags {
    open spec fn obeys_from_spec() -> bool {
        true
    }

    open spec fn from_spec(code: u16) -> Self {
        Self::spec_from_code(code)
    }
}

impl From<Nl80211StaFlags> for u16 {
    fn from(value: Nl80211StaFlags) -> (code: u16) {
        match value {
            Nl80211StaFlags::StaFlagInvalid => 0,
            Nl80211StaFlags::StaFlagAuthorized => 1,
            Nl80211StaFlags::StaFlagShortPreamble => 2,
            Nl80211StaFlags::StaFlagWme => 3,
            Nl80211StaFlags::StaFlagMfp => 4,
            Nl80211StaFlags::StaFlagAuthenticated => 5,
            Nl80211StaFlags::StaFlagTdlsPeer => 6,
            Nl80211StaFlags::StaFlagAssociated => 7,
            Nl80211StaFlags::StaFlagAfterLast => 8,
            Nl80211StaFlags::StaFlagMax => 7,
            Nl80211StaFlags::UnrecognizedConst(code) => code,
        }
    }
}

impl FromSpecImpl<Nl80211StaFlags> for u16 {
    open spec fn obeys_from_spec() -> bool {
        true
    }

    open spec fn from_spec(value: Nl80211StaFlags) -> u16 {
        value.spec_code()
    }
}

/// The kernel's `nl80211_sta_p2p_ps_status` enumeration.
#[derive(Clone, Copy, Debug, PartialEq, Eq, PartialOrd, Ord, Hash, Structural)]
pub enum Nl80211StaP2pPsStatus {
    P2pPsUnsupported,
    P2pPsSupported,
    NumP2pPsStatus,
    UnrecognizedConst(u16),
}

impl Nl80211StaP2pPsStatus {
    /// The value that a code stands for; where two names share a code, the
    /// first of them.
    pub open spec fn spec_from_code(code: u16) -> Self {
        match code {
            0 => Nl80211StaP2pPsStatus::P2pPsUnsupported,
            1 => Nl80211StaP2pPsStatus::P2pPsSupported,
            2 => Nl80211StaP2pPsStatus::NumP2pPsStatus,
            _ => Nl80211StaP2pPsStatus::UnrecognizedConst(code),
        }
    }

    /// The code of a value.
    pub open spec fn spec_code(self) -> u16 {
        match self {
            Nl80211StaP2pPsStatus::P2pPsUnsupported => 0,
            Nl80211StaP2pPsStatus::P2pPsSupported => 1,
            Nl80211StaP2pPsStatus::NumP2pPsStatus => 2,
            Nl80211StaP2pPsStatus::UnrecognizedConst(code) => code,
        }
    }

    /// Whether the value is none that the vocabulary names.
    pub fn is_unrecognized(&self) -> (r: bool)
        ensures
            r == (*self is UnrecognizedConst),
    {
        match self {
            Nl80211StaP2pPsStatus::UnrecognizedConst(_) => true,
            _ => false,
        }
    }

    /// Every code is the code of the value it stands for.
    pub proof fn lemma_code_round_trip(code: u16)
        ensures
            Self::spec_from_code(code).spec_code() == code,
    {
    }
}

impl From<u16> for Nl80211StaP2pPsStatus {
    fn from(code: u16) -> (value: Self) {
        match code {
            0 => Nl80211StaP2pPsStatus::P2pPsUnsupported,
            1 => Nl80211StaP2pPsStatus::P2pPsSupported,
            2 => Nl80211StaP2pPsStatus::NumP2pPsStatus,
            _ => Nl80211StaP2pPsStatus::UnrecognizedConst(code),
        }
    }
}

impl FromSpecImpl<u16> for Nl80211StaP2pPsStatus {
    open spec fn obeys_from_spec() -> bool {
        true
    }

    open spec fn from_spec(code: u16) -> Self {
        Self::spec_from_code(code)
    }
}

impl From<Nl80211StaP2pPsStatus> for u16 {
    fn from(value: Nl80211StaP2pPsStatus) -> (code: u16) {
        match value {
            Nl80211StaP2pPsStatus::P2pPsUnsupported => 0,
            Nl80211StaP2pPsStatus::P2pPsSupported => 1,
            Nl80211StaP2pPsStatus::NumP2pPsStatus => 2,
            Nl80211StaP2pPsStatus::UnrecognizedConst(code) => code,
        }
    }
}

impl FromSpecImpl<Nl80211StaP2pPsStatus> for u16 {
    open spec fn obeys_from_spec() -> bool {
        true
    }

    open spec fn from_spec(value: Nl80211StaP2pPsStatus) -> u16 {
        value.spec_code()
    }
}

/// The kernel's `nl80211_rate_info` enumeration.
#[derive(Clone, Copy, Debug, PartialEq, Eq, PartialOrd, Ord, Hash, Structural)]
pub enum Nl80211RateInfo {
    RateInfoInvalid,
    RateInfoBitrate,
    RateInfoMcs,
    RateInfo40MhzWidth,
    RateInfoShortGi,
    RateInfoBitrate32,
    RateInfoVhtMcs,
    RateInfoVhtNss,
    RateInfo80MhzWidth,
    RateInfo80p80MhzWidth,
    RateInfo160MhzWidth,
    RateInfo10MhzWidth,
    RateInfo5MhzWidth,
    RateInfoAfterLast,
    RateInfoMax,
    UnrecognizedConst(u16),
}

impl Nl80211RateInfo {
    /// The value that a code stands for; where two names share a code, the
    /// first of them.
    pub open spec fn spec_from_code(code: u16) -> Self {
        match code {
            0 => Nl80211RateInfo::RateInfoInvalid,
            1 => Nl80211RateInfo::RateInfoBitrate,
            2 => Nl80211RateInfo::RateInfoMcs,
            3 => Nl80211RateInfo::RateInfo40MhzWidth,
            4 => Nl80211RateInfo::RateInfoShortGi,
            5 => Nl80211RateInfo::RateInfoBitrate32,
            6 => Nl80211RateInfo::RateInfoVhtMcs,
            7 => Nl80211RateInfo::RateInfoVhtNss,
            8 => Nl80211RateInfo::RateInfo80MhzWidth,
            9 => Nl80211RateInfo::RateInfo80p80MhzWidth,
            10 => Nl80211RateInfo::RateInfo160MhzWidth,
            11 => Nl80211RateInfo::RateInfo10MhzWidth,
            12 => Nl80211RateInfo::RateInfo5MhzWidth,
            13 => Nl80211RateInfo::RateInfoAfterLast,
            _ => Nl80211RateInfo::UnrecognizedConst(code),
        }
    }

    /// The code of a value.
    pub open spec fn spec_code(self) -> u16 {
        match self {
            Nl80211RateInfo::RateInfoInvalid => 0,
            Nl80211RateInfo::RateInfoBitrate => 1,
            Nl80211RateInfo::RateInfoMcs => 2,
            Nl80211RateInfo::RateInfo40MhzWidth => 3,
            Nl80211RateInfo::RateInfoShortGi => 4,
            Nl80211RateInfo::RateInfoBitrate32 => 5,
            Nl80211RateInfo::RateInfoVhtMcs => 6,
            Nl80211RateInfo::RateInfoVhtNss => 7,
            Nl80211RateInfo::RateInfo80MhzWidth => 8,
            Nl80211RateInfo::RateInfo80p80MhzWidth => 9,
            Nl80211RateInfo::RateInfo160MhzWidth => 10,
            Nl80211RateInfo::RateInfo10MhzWidth => 11,
            Nl80211RateInfo::RateInfo5MhzWidth => 12,
            Nl80211RateInfo::RateInfoAfterLast => 13,
            Nl80211RateInfo::RateInfoMax => 12,
            Nl80211RateInfo::UnrecognizedConst(code) => code,
        }
    }

    /// Whether the value is none that the vocabulary names.
    pub fn is_unrecognized(&self) -> (r: bool)
        ensures
            r == (*self is UnrecognizedConst),
    {
        match self {
            Nl80211RateInfo::UnrecognizedConst(_) => true,
            _ => false,
        }
    }

    /// Every code is the code of the value it stands for.
    pub proof fn lemma_code_round_trip(code: u16)
        ensures
            Self::spec_from_code(code).spec_code() == code,
    {
    }
}

impl From<u16> for Nl80211RateInfo {
    fn from(code: u16) -> (value: Self) {
        match code {
            0 => Nl80211RateInfo::RateInfoInvalid,
            1 => Nl80211RateInfo::RateInfoBitrate,
            2 => Nl80211RateInfo::RateInfoMcs,
            3 => Nl80211RateInfo::RateInfo40MhzWidth,
            4 => Nl80211RateInfo::RateInfoShortGi,
            5 => Nl80211RateInfo::RateInfoBitrate32,
            6 => Nl80211RateInfo::RateInfoVhtMcs,
            7 => Nl80211RateInfo::RateInfoVhtNss,
            8 => Nl80211RateInfo::RateInfo80MhzWidth,
            9 => Nl80211RateInfo::RateInfo80p80MhzWidth,
            10 => Nl80211RateInfo::RateInfo160MhzWidth,
            11 => Nl80211RateInfo::RateInfo10MhzWidth,
            12 => Nl80211RateInfo::RateInfo5MhzWidth,
            13 => Nl80211RateInfo::RateInfoAfterLast,
            _ => Nl80211RateInfo::UnrecognizedConst(code),
        }
    }
}

impl FromSpecImpl<u16> for Nl80211RateInfo {
    open spec fn obeys_from_spec() -> bool {
        true
    }

    open spec fn from_spec(code: u16) -> Self {
        Self::spec_from_code(code)
    }
}

impl From<Nl80211RateInfo> for u16 {
    fn from(value: Nl80211RateInfo) -> (code: u16) {
        match value {
            Nl80211RateInfo::RateInfoInvalid => 0,
            Nl80211RateInfo::RateInfoBitrate => 1,
            Nl80211RateInfo::RateInfoMcs => 2,
            Nl80211RateInfo::RateInfo40MhzWidth => 3,
            Nl80211RateInfo::RateInfoShortGi => 4,
            Nl80211RateInfo::RateInfoBitrate32 => 5,
            Nl80211RateInfo::RateInfoVhtMcs => 6,
            Nl80211RateInfo::RateInfoVhtNss => 7,
            Nl80211RateInfo::RateInfo80MhzWidth => 8,
            Nl80211RateInfo::RateInfo80p80MhzWidth => 9,
            Nl80211RateInfo::RateInfo160MhzWidth => 10,
            Nl80211RateInfo::RateInfo10MhzWidth => 11,
            Nl80211RateInfo::RateInfo5MhzWidth => 12,
            Nl80211RateInfo::RateInfoAfterLast => 13,
            Nl80211RateInfo::RateInfoMax => 12,
            Nl80211RateInfo::UnrecognizedConst(code) => code,
        }
    }
}

impl FromSpecImpl<Nl80211RateInfo> for u16 {
    open spec fn obeys_from_spec() -> bool {
        true
    }

    open spec fn from_spec(value: Nl80211RateInfo) -> u16 {
        value.spec_code()
    }
}

/// The kernel's `nl80211_sta_bss_param` enumeration.
#[derive(Clone, Copy, Debug, PartialEq, Eq, PartialOrd, Ord, Hash, Structural)]
pub enum Nl80211StaBssParam {
    StaBssParamInvalid,
    StaBssParamCtsProt,
    StaBssParamShortPreamble,
    StaBssParamShortSlotTime,
    StaBssParamDtimPeriod,
    StaBssParamBeaconInterval,
    StaBssParamAfterLast,
    StaBssParamMax,
    UnrecognizedConst(u16),
}

impl Nl80211StaBssParam {
    /// The value that a code stands for; where two names share a code, the
    /// first of them.
    pub open spec fn spec_from_code(code: u16) -> Self {
        match code {
            0 => Nl80211StaBssParam::StaBssParamInvalid,
            1 => Nl80211StaBssParam::StaBssParamCtsProt,
            2 => Nl80211StaBssParam::StaBssParamShortPreamble,
            3 => Nl80211StaBssParam::StaBssParamShortSlotTime,
            4 => Nl80211StaBssParam::StaBssParamDtimPeriod,
            5 => Nl80211StaBssParam::StaBssParamBeaconInterval,
            6 => Nl80211StaBssParam::StaBssParamAfterLast,
            _ => Nl80211StaBssParam::UnrecognizedConst(code),
        }
    }

    /// The code of a value.
    pub open spec fn spec_code(self) -> u16 {
        match self {
            Nl80211StaBssParam::StaBssParamInvalid => 0,
            Nl80211StaBssParam::StaBssParamCtsProt => 1,
            Nl80211StaBssParam::StaBssParamShortPreamble => 2,
            Nl80211StaBssParam::StaBssParamShortSlotTime => 3,
            Nl80211StaBssParam::StaBssParamDtimPeriod => 4,
            Nl80211StaBssParam::StaBssParamBeaconInterval => 5,
            Nl80211StaBssParam::StaBssParamAfterLast => 6,
            Nl80211StaBssParam::StaBssParamMax => 5,
            Nl80211StaBssParam::UnrecognizedConst(code) => code,
        }
    }

    /// Whether the value is none that the vocabulary names.
    pub fn is_unrecognized(&self) -> (r: bool)
        ensures
            r == (*self is UnrecognizedConst),
    {
        match self {
            Nl80211StaBssParam::UnrecognizedConst(_) => true,
            _ => false,
        }
    }

    /// Every code is the code of the value it stands for.
    pub proof fn lemma_code_round_trip(code: u16)
        ensures
            Self::spec_from_code(code).spec_code() == code,
    {
    }
}

impl From<u16> for Nl80211StaBssParam {
    fn from(code: u16) -> (value: Self) {
        match code {
            0 => Nl80211StaBssParam::StaBssParamInvalid,
            1 => Nl80211StaBssParam::StaBssParamCtsProt,
            2 => Nl80211StaBssParam::StaBssParamShortPreamble,
            3 => Nl80211StaBssParam::StaBssParamShortSlotTime,
            4 => Nl80211StaBssParam::StaBssParamDtimPeriod,
            5 => Nl80211StaBssParam::StaBssParamBeaconInterval,
            6 => Nl80211StaBssParam::StaBssParamAfterLast,
            _ => Nl80211StaBssParam::UnrecognizedConst(code),
        }
    }
}

impl FromSpecImpl<u16> for Nl80211StaBssParam {
    open spec fn obeys_from_spec() -> bool {
        true
    }

    open spec fn from_spec(code: u16) -> Self {
        Self::spec_from_code(code)
    }
}

impl From<Nl80211StaBssParam> for u16 {
    fn from(value: Nl80211StaBssParam) -> (code: u16) {
        match value {
            Nl80211StaBssParam::StaBssParamInvalid => 0,
            Nl80211StaBssParam::StaBssParamCtsProt => 1,
            Nl80211StaBssParam::StaBssParamShortPreamble => 2,
            Nl80211StaBssParam::StaBssParamShortSlotTime => 3,
            Nl80211StaBssParam::StaBssParamDtimPeriod => 4,
            Nl80211StaBssParam::StaBssParamBeaconInterval => 5,
            Nl80211StaBssParam::StaBssParamAfterLast => 6,
            Nl80211StaBssParam::StaBssParamMax => 5,
            Nl80211StaBssParam::UnrecognizedConst(code) => code,
        }
    }
}

impl FromSpecImpl<Nl80211StaBssParam> for u16 {
    open spec fn obeys_from_spec() -> bool {
        true
    }

    open spec fn from_spec(value: Nl80211StaBssParam) -> u16 {
        value.spec_code()
    }
}

/// The kernel's `nl80211_sta_info` enumeration.
#[derive(Clone, Copy, Debug, PartialEq, Eq, PartialOrd, Ord, Hash, Structural)]
pub enum Nl80211StaInfo {
    StaInfoInvalid,
    StaInfoInactiveTime,
    StaInfoRxBytes,
    StaInfoTxBytes,
    StaInfoLlid,
    StaInfoPlid,
    StaInfoPlinkState,
    StaInfoSignal,
    StaInfoTxBitrate,
    StaInfoRxPackets,
    StaInfoTxPackets,
    StaInfoTxRetries,
    StaInfoTxFailed,
    StaInfoSignalAvg,
    StaInfoRxBitrate,
    StaInfoBssParam,
    StaInfoConnectedTime,
    StaInfoStaFlags,
    StaInfoBeaconLoss,
    StaInfoTOffset,
    StaInfoLocalPm,
    StaInfoPeerPm,
    StaInfoNonpeerPm,
    StaInfoRxBytes64,
    StaInfoTxBytes64,
    StaInfoChainSignal,
    StaInfoChainSignalAvg,
    StaInfoExpectedThroughput,
    StaInfoRxDropMisc,
    StaInfoBeaconRx,
    StaInfoBeaconSignalAvg,
    StaInfoTidStats,
    StaInfoRxDuration,
    StaInfoPad,
    StaInfoAfterLast,
    StaInfoMax,
    UnrecognizedConst(u16),
}

impl Nl80211StaInfo {
    /// The value that a code stands for; where two names share a code, the
    /// first of them.
    pub open spec fn spec_from_code(code: u16) -> Self {
        match code {
            0 => Nl80211StaInfo::StaInfoInvalid,
            1 => Nl80211StaInfo::StaInfoInactiveTime,
            2 => Nl80211StaInfo::StaInfoRxBytes,
            3 => Nl80211StaInfo::StaInfoTxBytes,
            4 => Nl80211StaInfo::StaInfoLlid,
            5 => Nl80211StaInfo::StaInfoPlid,
            6 => Nl80211StaInfo::StaInfoPlinkState,
            7 => Nl80211StaInfo::StaInfoSignal,
            8 => Nl80211StaInfo::StaInfoTxBitrate,
            9 => Nl80211StaInfo::StaInfoRxPackets,
            10 => Nl80211StaInfo::StaInfoTxPackets,
            11 => Nl80211StaInfo::StaInfoTxRetries,
            12 => Nl80211StaInfo::StaInfoTxFailed,
            13 => Nl80211StaInfo::StaInfoSignalAvg,
            14 => Nl80211StaInfo::StaInfoRxBitrate,
            15 => Nl80211StaInfo::StaInfoBssParam,
            16 => Nl80211StaInfo::StaInfoConnectedTime,
            17 => Nl80211StaInfo::StaInfoStaFlags,
            18 => Nl80211StaInfo::StaInfoBeaconLoss,
            19 => Nl80211StaInfo::StaInfoTOffset,
            20 => Nl80211StaInfo::StaInfoLocalPm,
            21 => Nl80211StaInfo::StaInfoPeerPm,
            22 => Nl80211StaInfo::StaInfoNonpeerPm,
            23 => Nl80211StaInfo::StaInfoRxBytes64,
            24 => Nl80211StaInfo::StaInfoTxBytes64,
            25 => Nl80211StaInfo::StaInfoChainSignal,
            26 => Nl80211StaInfo::StaInfoChainSignalAvg,
            27 => Nl80211StaInfo::StaInfoExpectedThroughput,
            28 => Nl80211StaInfo::StaInfoRxDropMisc,
            29 => Nl80211StaInfo::StaInfoBeaconRx,
            30 => Nl80211StaInfo::StaInfoBeaconSignalAvg,
            31 => Nl80211StaInfo::StaInfoTidStats,
            32 => Nl80211StaInfo::StaInfoRxDuration,
            33 => Nl80211StaInfo::StaInfoPad,
            34 => Nl80211StaInfo::StaInfoAfterLast,
            _ => Nl80211StaInfo::UnrecognizedConst(code),
        }
    }

    /// The code of a value.
    pub open spec fn spec_code(self) -> u16 {
        match self {
            Nl80211StaInfo::StaInfoInvalid => 0,
            Nl80211StaInfo::StaInfoInactiveTime => 1,
            Nl80211StaInfo::StaInfoRxBytes => 2,
            Nl80211StaInfo::StaInfoTxBytes => 3,
            Nl80211StaInfo::StaInfoLlid => 4,
            Nl80211StaInfo::StaInfoPlid => 5,
            Nl80211StaInfo::StaInfoPlinkState => 6,
            Nl80211StaInfo::StaInfoSignal => 7,
            Nl80211StaInfo::StaInfoTxBitrate => 8,
            Nl80211StaInfo::StaInfoRxPackets => 9,
            Nl80211StaInfo::StaInfoTxPackets => 10,
            Nl80211StaInfo::StaInfoTxRetries => 11,
            Nl80211StaInfo::StaInfoTxFailed => 12,
            Nl80211StaInfo::StaInfoSignalAvg => 13,
            Nl80211StaInfo::StaInfoRxBitrate => 14,
            Nl80211StaInfo::StaInfoBssParam => 15,
            Nl80211StaInfo::StaInfoConnectedTime => 16,
            Nl80211StaInfo::StaInfoStaFlags => 17,
            Nl80211StaInfo::StaInfoBeaconLoss => 18,
            Nl80211StaInfo::StaInfoTOffset => 19,
            Nl80211StaInfo::StaInfoLocalPm => 20,
            Nl80211StaInfo::StaInfoPeerPm => 21,
            Nl80211StaInfo::StaInfoNonpeerPm => 22,
            Nl80211StaInfo::StaInfoRxBytes64 => 23,
            Nl80211StaInfo::StaInfoTxBytes64 => 24,
            Nl80211StaInfo::StaInfoChainSignal => 25,
            Nl80211StaInfo::StaInfoChainSignalAvg => 26,
            Nl80211StaInfo::StaInfoExpectedThroughput => 27,
            Nl80211StaInfo::StaInfoRxDropMisc => 28,
            Nl80211StaInfo::StaInfoBeaconRx => 29,
            Nl80211StaInfo::StaInfoBeaconSignalAvg => 30,
            Nl80211StaInfo::StaInfoTidStats => 31,
            Nl80211StaInfo::StaInfoRxDuration => 32,
            Nl80211StaInfo::StaInfoPad => 33,
            Nl80211StaInfo::StaInfoAfterLast => 34,
            Nl80211StaInfo::StaInfoMax => 33,
            Nl80211StaInfo::UnrecognizedConst(code) => code,
        }
    }

    /// Whether the value is none that the vocabulary names.
    pub fn is_unrecognized(&self) -> (r: bool)
        ensures
            r == (*self is UnrecognizedConst),
    {
        match self {
            Nl80211StaInfo::UnrecognizedConst(_) => true,
            _ => false,
        }
    }

    /// Every code is the code of the value it stands for.
    pub proof fn lemma_code_round_trip(code: u16)
        ensures
            Self::spec_from_code(code).spec_code() == code,
    {
    }
}

impl From<u16> for Nl80211StaInfo {
    fn from(code: u16) -> (value: Self) {
        match code {
            0 => Nl80211StaInfo::StaInfoInvalid,
            1 => Nl80211StaInfo::StaInfoInactiveTime,
            2 => Nl80211StaInfo::StaInfoRxBytes,
            3 => Nl80211StaInfo::StaInfoTxBytes,
            4 => Nl80211StaInfo::StaInfoLlid,
            5 => Nl80211StaInfo::StaInfoPlid,
            6 => Nl80211StaInfo::StaInfoPlinkState,
            7 => Nl80211StaInfo::StaInfoSignal,
            8 => Nl80211StaInfo::StaInfoTxBitrate,
            9 => Nl80211StaInfo::StaInfoRxPackets,
            10 => Nl80211StaInfo::StaInfoTxPackets,
            11 => Nl80211StaInfo::StaInfoTxRetries,
            12 => Nl80211StaInfo::StaInfoTxFailed,
            13 => Nl80211StaInfo::StaInfoSignalAvg,
            14 => Nl80211StaInfo::StaInfoRxBitrate,
            15 => Nl80211StaInfo::StaInfoBssParam,
            16 => Nl80211StaInfo::StaInfoConnectedTime,
            17 => Nl80211StaInfo::StaInfoStaFlags,
            18 => Nl80211StaInfo::StaInfoBeaconLoss,
            19 => Nl80211StaInfo::StaInfoTOffset,
            20 => Nl80211StaInfo::StaInfoLocalPm,
            21 => Nl80211StaInfo::StaInfoPeerPm,
            22 => Nl80211StaInfo::StaInfoNonpeerPm,
            23 => Nl80211StaInfo::StaInfoRxBytes64,
            24 => Nl80211StaInfo::StaInfoTxBytes64,
            25 => Nl80211StaInfo::StaInfoChainSignal,
            26 => Nl80211StaInfo::StaInfoChainSignalAvg,
            27 => Nl80211StaInfo::StaInfoExpectedThroughput,
            28 => Nl80211StaInfo::StaInfoRxDropMisc,
            29 => Nl80211StaInfo::StaInfoBeaconRx,
            30 => Nl80211StaInfo::StaInfoBeaconSignalAvg,
            31 => Nl80211StaInfo::StaInfoTidStats,
            32 => Nl80211StaInfo::StaInfoRxDuration,
            33 => Nl80211StaInfo::StaInfoPad,
            34 => Nl80211StaInfo::StaInfoAfterLast,
            _ => Nl80211StaInfo::UnrecognizedConst(code),
        }
    }
}

impl FromSpecImpl<u16> for Nl80211StaInfo {
    open spec fn obeys_from_spec() -> bool {
        true
    }

    open spec fn from_spec(code: u16) -> Self {
        Self::spec_from_code(code)
    }
}

impl From<Nl80211StaInfo> for u16 {
    fn from(value: Nl80211StaInfo) -> (code: u16) {
        match value {
            Nl80211StaInfo::StaInfoInvalid => 0,
            Nl80211StaInfo::StaInfoInactiveTime => 1,
            Nl80211StaInfo::StaInfoRxBytes => 2,
            Nl80211StaInfo::StaInfoTxBytes => 3,
            Nl80211StaInfo::StaInfoLlid => 4,
            Nl80211StaInfo::StaInfoPlid => 5,
            Nl80211StaInfo::StaInfoPlinkState => 6,
            Nl80211StaInfo::StaInfoSignal => 7,
            Nl80211StaInfo::StaInfoTxBitrate => 8,
            Nl80211StaInfo::StaInfoRxPackets => 9,
            Nl80211StaInfo::StaInfoTxPackets => 10,
            Nl80211StaInfo::StaInfoTxRetries => 11,
            Nl80211StaInfo::StaInfoTxFailed => 12,
            Nl80211StaInfo::StaInfoSignalAvg => 13,
            Nl80211StaInfo::StaInfoRxBitrate => 14,
            Nl80211StaInfo::StaInfoBssParam => 15,
            Nl80211StaInfo::StaInfoConnectedTime => 16,
            Nl80211StaInfo::StaInfoStaFlags => 17,
            Nl80211StaInfo::StaInfoBeaconLoss => 18,
            Nl80211StaInfo::StaInfoTOffset => 19,
            Nl80211StaInfo::StaInfoLocalPm => 20,
            Nl80211StaInfo::StaInfoPeerPm => 21,
            Nl80211StaInfo::StaInfoNonpeerPm => 22,
            Nl80211StaInfo::StaInfoRxBytes64 => 23,
            Nl80211StaInfo::StaInfoTxBytes64 => 24,
            Nl80211StaInfo::StaInfoChainSignal => 25,
            Nl80211StaInfo::StaInfoChainSignalAvg => 26,
            Nl80211StaInfo::StaInfoExpectedThroughput => 27,
            Nl80211StaInfo::StaInfoRxDropMisc => 28,
            Nl80211StaInfo::StaInfoBeaconRx => 29,
            Nl80211StaInfo::StaInfoBeaconSignalAvg => 30,
            Nl80211StaInfo::StaInfoTidStats => 31,
            Nl80211StaInfo::StaInfoRxDuration => 32,
            Nl80211StaInfo::StaInfoPad => 33,
            Nl80211StaInfo::StaInfoAfterLast => 34,
            Nl80211StaInfo::StaInfoMax => 33,
            Nl80211StaInfo::UnrecognizedConst(code) => code,
        }
    }
}

impl FromSpecImpl<Nl80211StaInfo> for u16 {
    open spec fn obeys_from_spec() -> bool {
        true
    }

    open spec fn from_spec(value: Nl80211StaInfo) -> u16 {
        value.spec_code()
    }
}

/// The kernel's `nl80211_tid_stats` enumeration.
#[derive(Clone, Copy, Debug, PartialEq, Eq, PartialOrd, Ord, Hash, Structural)]
pub enum Nl80211TidStats {
    TidStatsInvalid,
    TidStatsRxMsdu,
    TidStatsTxMsdu,
    TidStatsTxMsduRetries,
    TidStatsTxMsduFailed,
    TidStatsPad,
    NumTidStats,
    TidStatsMax,
    UnrecognizedConst(u16),
}

impl Nl80211TidStats {
    /// The value that a code stands for; where two names share a code, the
    /// first of them.
    pub open spec fn spec_from_code(code: u16) -> Self {
        match code {
            0 => Nl80211TidStats::TidStatsInvalid,
            1 => Nl80211TidStats::TidStatsRxMsdu,
            2 => Nl80211TidStats::TidStatsTxMsdu,
            3 => Nl80211TidStats::TidStatsTxMsduRetries,
            4 => Nl80211TidStats::TidStatsTxMsduFailed,
            5 => Nl80211TidStats::TidStatsPad,
            6 => Nl80211TidStats::NumTidStats,
            _ => Nl80211TidStats::UnrecognizedConst(code),
        }
    }

    /// The code of a value.
    pub open spec fn spec_code(self) -> u16 {
        match self {
            Nl80211TidStats::TidStatsInvalid => 0,
            Nl80211TidStats::TidStatsRxMsdu => 1,
            Nl80211TidStats::TidStatsTxMsdu => 2,
            Nl80211TidStats::TidStatsTxMsduRetries => 3,
            Nl80211TidStats::TidStatsTxMsduFailed => 4,
            Nl80211TidStats::TidStatsPad => 5,
            Nl80211TidStats::NumTidStats => 6,
            Nl80211TidStats::TidStatsMax => 5,
            Nl80211TidStats::UnrecognizedConst(code) => code,
        }
    }

    /// Whether the value is none that the vocabulary names.
    pub fn is_unrecognized(&self) -> (r: bool)
        ensures
            r == (*self is UnrecognizedConst),
    {
        match self {
            Nl80211TidStats::UnrecognizedConst(_) => true,
            _ => false,
        }
    }

    /// Every code is the code of the value it stands for.
    pub proof fn lemma_code_round_trip(code: u16)
        ensures
            Self::spec_from_code(code).spec_code() == code,
    {
    }
}

impl From<u16> for Nl80211TidStats {
    fn from(code: u16) -> (value: Self) {
        match code {
            0 => Nl80211TidStats::TidStatsInvalid,
            1 => Nl80211TidStats::TidStatsRxMsdu,
            2 => Nl80211TidStats::TidStatsTxMsdu,
            3 => Nl80211TidStats::TidStatsTxMsduRetries,
            4 => Nl80211TidStats::TidStatsTxMsduFailed,
            5 => Nl80211TidStats::TidStatsPad,
            6 => Nl80211TidStats::NumTidStats,
            _ => Nl80211TidStats::UnrecognizedConst(code),
        }
    }
}

impl FromSpecImpl<u16> for Nl80211TidStats {
    open spec fn obeys_from_spec() -> bool {
        true
    }

    open spec fn from_spec(code: u16) -> Self {
        Self::spec_from_code(code)
    }
}

impl From<Nl80211TidStats> for u16 {
    fn from(value: Nl80211TidStats) -> (code: u16) {
        match value {
            Nl80211TidStats::TidStatsInvalid => 0,
            Nl80211TidStats::TidStatsRxMsdu => 1,
            Nl80211TidStats::TidStatsTxMsdu => 2,
            Nl80211TidStats::TidStatsTxMsduRetries => 3,
            Nl80211TidStats::TidStatsTxMsduFailed => 4,
            Nl80211TidStats::TidStatsPad => 5,
            Nl80211TidStats::NumTidStats => 6,
            Nl80211TidStats::TidStatsMax => 5,
            Nl80211TidStats::UnrecognizedConst(code) => code,
        }
    }
}

impl FromSpecImpl<Nl80211TidStats> for u16 {
    open spec fn obeys_from_spec() -> bool {
        true
    }

    open spec fn from_spec(value: Nl80211TidStats) -> u16 {
        value.spec_code()
    }
}

/// The kernel's `nl80211_mpath_flags` enumeration.
#[derive(Clone, Copy, Debug, PartialEq, Eq, PartialOrd, Ord, Hash, Structural)]
pub enum Nl80211MpathFlags {
    MpathFlagActive,
    MpathFlagResolving,
    MpathFlagSnValid,
    MpathFlagFixed,
    MpathFlagResolved,
    UnrecognizedConst(u16),
}

impl Nl80211MpathFlags {
    /// The value that a code stands for; where two names share a code, the
    /// first of them.
    pub open spec fn spec_from_code(code: u16) -> Self {
        match code {
            1 => Nl80211MpathFlags::MpathFlagActive,
            2 => Nl80211MpathFlags::MpathFlagResolving,
            4 => Nl80211MpathFlags::MpathFlagSnValid,
            8 => Nl80211MpathFlags::MpathFlagFixed,
            16 => Nl80211MpathFlags::MpathFlagResolved,
            _ => Nl80211MpathFlags::UnrecognizedConst(code),
        }
    }

    /// The code of a value.
    pub open spec fn spec_code(self) -> u16 {
        match self {
            Nl80211MpathFlags::MpathFlagActive => 1,
            Nl80211MpathFlags::MpathFlagResolving => 2,
            Nl80211MpathFlags::MpathFlagSnValid => 4,
            Nl80211MpathFlags::MpathFlagFixed => 8,
            Nl80211MpathFlags::MpathFlagResolved => 16,
            Nl80211MpathFlags::UnrecognizedConst(code) => code,
        }
    }

    /// Whether the value is none that the vocabulary names.
    pub fn is_unrecognized(&self) -> (r: bool)
        ensures
            r == (*self is UnrecognizedConst),
    {
        match self {
            Nl80211MpathFlags::UnrecognizedConst(_) => true,
            _ => false,
        }
    }

    /// Every code is the code of the value it stands for.
    pub proof fn lemma_code_round_trip(code: u16)
        ensures
            Self::spec_from_code(code).spec_code() == code,
    {
    }
}

impl From<u16> for Nl80211MpathFlags {
    fn from(code: u16) -> (value: Self) {
        match code {
            1 => Nl80211MpathFlags::MpathFlagActive,
            2 => Nl80211MpathFlags::MpathFlagResolving,
            4 => Nl80211MpathFlags::MpathFlagSnValid,
            8 => Nl80211MpathFlags::MpathFlagFixed,
            16 => Nl80211MpathFlags::MpathFlagResolved,
            _ => Nl80211MpathFlags::UnrecognizedConst(code),
        }
    }
}

impl FromSpecImpl<u16> for Nl80211MpathFlags {
    open spec fn obeys_from_spec() -> bool {
        true
    }

    open spec fn from_spec(code: u16) -> Self {
        Self::spec_from_code(code)
    }
}

impl From<Nl80211MpathFlags> for u16 {
    fn from(value: Nl80211MpathFlags) -> (code: u16) {
        match value {
            Nl80211MpathFlags::MpathFlagActive => 1,
            Nl80211MpathFlags::MpathFlagResolving => 2,
            Nl80211MpathFlags::MpathFlagSnValid => 4,
            Nl80211MpathFlags::MpathFlagFixed => 8,
            Nl80211MpathFlags::MpathFlagResolved => 16,
            Nl80211MpathFlags::UnrecognizedConst(code) => code,
        }
    }
}

impl FromSpecImpl<Nl80211MpathFlags> for u16 {
    open spec fn obeys_from_spec() -> bool {
        true
    }

    open spec fn from_spec(value: Nl80211MpathFlags) -> u16 {
        value.spec_code()
    }
}

/// The kernel's `nl80211_mpath_flags` enumeration.
#[derive(Clone, Copy, Debug, PartialEq, Eq, PartialOrd, Ord, Hash, Structural)]
pub enum Nl80211MpathInfo {
    MpathInfoInvalid,
    MpathInfoFrameQlen,
    MpathInfoSn,
    MpathInfoMetric,
    MpathInfoExptime,
    MpathInfoFlags,
    MpathInfoDiscoveryTimeout,
    MpathInfoDiscoveryRetries,
    MpathInfoAfterLast,
    MpathInfoMax,
    UnrecognizedConst(u16),
}

impl Nl80211MpathInfo {
    /// The value that a code stands for; where two names share a code, the
    /// first of them.
    pub open spec fn spec_from_code(code: u16) -> Self {
        match code {
            0 => Nl80211MpathInfo::MpathInfoInvalid,
            1 => Nl80211MpathInfo::MpathInfoFrameQlen,
            2 => Nl80211MpathInfo::MpathInfoSn,
            3 => Nl80211MpathInfo::MpathInfoMetric,
            4 => Nl80211MpathInfo::MpathInfoExptime,
            5 => Nl80211MpathInfo::MpathInfoFlags,
            6 => Nl80211MpathInfo::MpathInfoDiscoveryTimeout,
            7 => Nl80211MpathInfo::MpathInfoDiscoveryRetries,
            8 => Nl80211MpathInfo::MpathInfoAfterLast,
            _ => Nl80211MpathInfo::UnrecognizedConst(code),
        }
    }

    /// The code of a value.
    pub open spec fn spec_code(self) -> u16 {
        match self {
            Nl80211MpathInfo::MpathInfoInvalid => 0,
            Nl80211MpathInfo::MpathInfoFrameQlen => 1,
            Nl80211MpathInfo::MpathInfoSn => 2,
            Nl80211MpathInfo::MpathInfoMetric => 3,
            Nl80211MpathInfo::MpathInfoExptime => 4,
            Nl80211MpathInfo::MpathInfoFlags => 5,
            Nl80211MpathInfo::MpathInfoDiscoveryTimeout => 6,
            Nl80211MpathInfo::MpathInfoDiscoveryRetries => 7,
            Nl80211MpathInfo::MpathInfoAfterLast => 8,
            Nl80211MpathInfo::MpathInfoMax => 7,
            Nl80211MpathInfo::UnrecognizedConst(code) => code,
        }
    }

    /// Whether the value is none that the vocabulary names.
    pub fn is_unrecognized(&self) -> (r: bool)
        ensures
            r == (*self is UnrecognizedConst),
    {
        match self {
            Nl80211MpathInfo::UnrecognizedConst(_) => true,
            _ => false,
        }
    }

    /// Every code is the code of the value it stands for.
    pub proof fn lemma_code_round_trip(code: u16)
        ensures
            Self::spec_from_code(code).spec_code() == code,
    {
    }
}

impl From<u16> for Nl80211MpathInfo {
    fn from(code: u16) -> (value: Self) {
        match code {
            0 => Nl80211MpathInfo::MpathInfoInvalid,
            1 => Nl80211MpathInfo::MpathInfoFrameQlen,
            2 => Nl80211MpathInfo::MpathInfoSn,
            3 => Nl80211MpathInfo::MpathInfoMetric,
            4 => Nl80211MpathInfo::MpathInfoExptime,
            5 => Nl80211MpathInfo::MpathInfoFlags,
            6 => Nl80211MpathInfo::MpathInfoDiscoveryTimeout,
            7 => Nl80211MpathInfo::MpathInfoDiscoveryRetries,
            8 => Nl80211MpathInfo::MpathInfoAfterLast,
            _ => Nl80211MpathInfo::UnrecognizedConst(code),
        }
    }
}

impl FromSpecImpl<u16> for Nl80211MpathInfo {
    open spec fn obeys_from_spec() -> bool {
        true
    }

    open spec fn from_spec(code: u16) -> Self {
        Self::spec_from_code(code)
    }
}

impl From<Nl80211MpathInfo> for u16 {
    fn from(value: Nl80211MpathInfo) -> (code: u16) {
        match value {
            Nl80211MpathInfo::MpathInfoInvalid => 0,
            Nl80211MpathInfo::MpathInfoFrameQlen => 1,
            Nl80211MpathInfo::MpathInfoSn => 2,
            Nl80211MpathInfo::MpathInfoMetric => 3,
            Nl80211MpathInfo::MpathInfoExptime => 4,
            Nl80211MpathInfo::MpathInfoFlags => 5,
            Nl80211MpathInfo::MpathInfoDiscoveryTimeout => 6,
            Nl80211MpathInfo::MpathInfoDiscoveryRetries => 7,
            Nl80211MpathInfo::MpathInfoAfterLast => 8,
            Nl80211MpathInfo::MpathInfoMax => 7,
            Nl80211MpathInfo::UnrecognizedConst(code) => code,
        }
    }
}

impl FromSpecImpl<Nl80211MpathInfo> for u16 {
    open spec fn obeys_from_spec() -> bool {
        true
    }

    open spec fn from_spec(value: Nl80211MpathInfo) -> u16 {
        value.spec_code()
    }
}

/// The kernel's `nl80211_band_attr` enumeration.
#[derive(Clone, Copy, Debug, PartialEq, Eq, PartialOrd, Ord, Hash, Structural)]
pub enum Nl80211BandAttr {
    BandAttrInvalid,
    BandAttrFreqs,
    BandAttrRates,
    BandAttrHtMcsSet,
    BandAttrHtCapa,
    BandAttrHtAmpduFactor,
    BandAttrHtAmpduDensity,
    BandAttrVhtMcsSet,
    BandAttrVhtCapa,
    BandAttrAfterLast,
    BandAttrMax,
    UnrecognizedConst(u16),
}

impl Nl80211BandAttr {
    /// The value that a code stands for; where two names share a code, the
    /// first of them.
    pub open spec fn spec_from_code(code: u16) -> Self {
        match code {
            0 => Nl80211BandAttr::BandAttrInvalid,
            1 => Nl80211BandAttr::BandAttrFreqs,
            2 => Nl80211BandAttr::BandAttrRates,
            3 => Nl80211BandAttr::BandAttrHtMcsSet,
            4 => Nl80211BandAttr::BandAttrHtCapa,
            5 => Nl80211BandAttr::BandAttrHtAmpduFactor,
            6 => Nl80211BandAttr::BandAttrHtAmpduDensity,
            7 => Nl80211BandAttr::BandAttrVhtMcsSet,
            8 => Nl80211BandAttr::BandAttrVhtCapa,
            9 => Nl80211BandAttr::BandAttrAfterLast,
            _ => Nl80211BandAttr::UnrecognizedConst(code),
        }
    }

    /// The code of a value.
    pub open spec fn spec_code(self) -> u16 {
        match self {
            Nl80211BandAttr::BandAttrInvalid => 0,
            Nl80211BandAttr::BandAttrFreqs => 1,
            Nl80211BandAttr::BandAttrRates => 2,
            Nl80211BandAttr::BandAttrHtMcsSet => 3,
            Nl80211BandAttr::BandAttrHtCapa => 4,
            Nl80211BandAttr::BandAttrHtAmpduFactor => 5,
            Nl80211BandAttr::BandAttrHtAmpduDensity => 6,
            Nl80211BandAttr::BandAttrVhtMcsSet => 7,
            Nl80211BandAttr::BandAttrVhtCapa => 8,
            Nl80211BandAttr::BandAttrAfterLast => 9,
            Nl80211BandAttr::BandAttrMax => 8,
            Nl80211BandAttr::UnrecognizedConst(code) => code,
        }
    }

    /// Whether the value is none that the vocabulary names.
    pub fn is_unrecognized(&self) -> (r: bool)
        ensures
            r == (*self is UnrecognizedConst),
    {
        match self {
            Nl80211BandAttr::UnrecognizedConst(_) => true,
            _ => false,
        }
    }

    /// Every code is the code of the value it stands for.
    pub proof fn lemma_code_round_trip(code: u16)
        ensures
            Self::spec_from_code(code).spec_code() == code,
    {
    }
}

impl From<u16> for Nl80211BandAttr {
    fn from(code: u16) -> (value: Self) {
        match code {
            0 => Nl80211BandAttr::BandAttrInvalid,
            1 => Nl80211BandAttr::BandAttrFreqs,
            2 => Nl80211BandAttr::BandAttrRates,
            3 => Nl80211BandAttr::BandAttrHtMcsSet,
            4 => Nl80211BandAttr::BandAttrHtCapa,
            5 => Nl80211BandAttr::BandAttrHtAmpduFactor,
            6 => Nl80211BandAttr::BandAttrHtAmpduDensity,
            7 => Nl80211BandAttr::BandAttrVhtMcsSet,
            8 => Nl80211BandAttr::BandAttrVhtCapa,
            9 => Nl80211BandAttr::BandAttrAfterLast,
            _ => Nl80211BandAttr::UnrecognizedConst(code),
        }
    }
}

impl FromSpecImpl<u16> for Nl80211BandAttr {
    open spec fn obeys_from_spec() -> bool {
        true
    }

    open spec fn from_spec(code: u16) -> Self {
        Self::spec_from_code(code)
    }
}

impl From<Nl80211BandAttr> for u16 {
    fn from(value: Nl80211BandAttr) -> (code: u16) {
        match value {
            Nl80211BandAttr::BandAttrInvalid => 0,
            Nl80211BandAttr::BandAttrFreqs => 1,
            Nl80211BandAttr::BandAttrRates => 2,
            Nl80211BandAttr::BandAttrHtMcsSet => 3,
            Nl80211BandAttr::BandAttrHtCapa => 4,
            Nl80211BandAttr::BandAttrHtAmpduFactor => 5,
            Nl80211BandAttr::BandAttrHtAmpduDensity => 6,
            Nl80211BandAttr::BandAttrVhtMcsSet => 7,
            Nl80211BandAttr::BandAttrVhtCapa => 8,
            Nl80211BandAttr::BandAttrAfterLast => 9,
            Nl80211BandAttr::BandAttrMax => 8,
            Nl80211BandAttr::UnrecognizedConst(code) => code,
        }
    }
}

impl FromSpecImpl<Nl80211BandAttr> for u16 {
    open spec fn obeys_from_spec() -> bool {
        true
    }

    open spec fn from_spec(value: Nl80211BandAttr) -> u16 {
        value.spec_code()
    }
}

/// The kernel's `nl80211_frequency_attr` enumeration.
#[derive(Clone, Copy, Debug, PartialEq, Eq, PartialOrd, Ord, Hash, Structural)]
pub enum Nl80211FrequencyAttr {
    FrequencyAttrInvalid,
    FrequencyAttrFreq,
    FrequencyAttrDisabled,
    FrequencyAttrNoIr,
    FrequencyAttrNoIbss,
    FrequencyAttrRadar,
    FrequencyAttrMaxTxPower,
    FrequencyAttrDfsState,
    FrequencyAttrDfsTime,
    FrequencyAttrNoHt40Minus,
    FrequencyAttrNoHt40Plus,
    FrequencyAttrNo80mhz,
    FrequencyAttrNo160mhz,
    FrequencyAttrDfsCacTime,
    FrequencyAttrIndoorOnly,
    FrequencyAttrIrConcurrent,
    FrequencyAttrNo20mhz,
    FrequencyAttrNo10mhz,
    FrequencyAttrAfterLast,
    FrequencyAttrMax,
    UnrecognizedConst(u16),
}

impl Nl80211FrequencyAttr {
    /// The value that a code stands for; where two names share a code, the
    /// first of them.
    pub open spec fn spec_from_code(code: u16) -> Self {
        match code {
            0 => Nl80211FrequencyAttr::FrequencyAttrInvalid,
            1 => Nl80211FrequencyAttr::FrequencyAttrFreq,
            2 => Nl80211FrequencyAttr::FrequencyAttrDisabled,
            3 => Nl80211FrequencyAttr::FrequencyAttrNoIr,
            4 => Nl80211FrequencyAttr::FrequencyAttrNoIbss,
            5 => Nl80211FrequencyAttr::FrequencyAttrRadar,
            6 => Nl80211FrequencyAttr::FrequencyAttrMaxTxPower,
            7 => Nl80211FrequencyAttr::FrequencyAttrDfsState,
            8 => Nl80211FrequencyAttr::FrequencyAttrDfsTime,
            9 => Nl80211FrequencyAttr::FrequencyAttrNoHt40Minus,
            10 => Nl80211FrequencyAttr::FrequencyAttrNoHt40Plus,
            11 => Nl80211FrequencyAttr::FrequencyAttrNo80mhz,
            12 => Nl80211FrequencyAttr::FrequencyAttrNo160mhz,
            13 => Nl80211FrequencyAttr::FrequencyAttrDfsCacTime,
            14 => Nl80211FrequencyAttr::FrequencyAttrIndoorOnly,
            15 => Nl80211FrequencyAttr::FrequencyAttrIrConcurrent,
            16 => Nl80211FrequencyAttr::FrequencyAttrNo20mhz,
            17 => Nl80211FrequencyAttr::FrequencyAttrNo10mhz,
            18 => Nl80211FrequencyAttr::FrequencyAttrAfterLast,
            _ => Nl80211FrequencyAttr::UnrecognizedConst(code),
        }
    }

    /// The code of a value.
    pub open spec fn spec_code(self) -> u16 {
        match self {
            Nl80211FrequencyAttr::FrequencyAttrInvalid => 0,
            Nl80211FrequencyAttr::FrequencyAttrFreq => 1,
            Nl80211FrequencyAttr::FrequencyAttrDisabled => 2,
            Nl80211FrequencyAttr::FrequencyAttrNoIr => 3,
            Nl80211FrequencyAttr::FrequencyAttrNoIbss => 4,
            Nl80211FrequencyAttr::FrequencyAttrRadar => 5,
            Nl80211FrequencyAttr::FrequencyAttrMaxTxPower => 6,
            Nl80211FrequencyAttr::FrequencyAttrDfsState => 7,
            Nl80211FrequencyAttr::FrequencyAttrDfsTime => 8,
            Nl80211FrequencyAttr::FrequencyAttrNoHt40Minus => 9,
            Nl80211FrequencyAttr::FrequencyAttrNoHt40Plus => 10,
            Nl80211FrequencyAttr::FrequencyAttrNo80mhz => 11,
            Nl80211FrequencyAttr::FrequencyAttrNo160mhz => 12,
            Nl80211FrequencyAttr::FrequencyAttrDfsCacTime => 13,
            Nl80211FrequencyAttr::FrequencyAttrIndoorOnly => 14,
            Nl80211FrequencyAttr::FrequencyAttrIrConcurrent => 15,
            Nl80211FrequencyAttr::FrequencyAttrNo20mhz => 16,
            Nl80211FrequencyAttr::FrequencyAttrNo10mhz => 17,
            Nl80211FrequencyAttr::FrequencyAttrAfterLast => 18,
            Nl80211FrequencyAttr::FrequencyAttrMax => 17,
            Nl80211FrequencyAttr::UnrecognizedConst(code) => code,
        }
    }

    /// Whether the value is none that the vocabulary names.
    pub fn is_unrecognized(&self) -> (r: bool)
        ensures
            r == (*self is UnrecognizedConst),
    {
        match self {
            Nl80211FrequencyAttr::UnrecognizedConst(_) => true,
            _ => false,
        }
    }

    /// Every code is the code of the value it stands for.
    pub proof fn lemma_code_round_trip(code: u16)
        ensures
            Self::spec_from_code(code).spec_code() == code,
    {
    }
}

impl From<u16> for Nl80211FrequencyAttr {
    fn from(code: u16) -> (value: Self) {
        match code {
            0 => Nl80211FrequencyAttr::FrequencyAttrInvalid,
            1 => Nl80211FrequencyAttr::FrequencyAttrFreq,
            2 => Nl80211FrequencyAttr::FrequencyAttrDisabled,
            3 => Nl80211FrequencyAttr::FrequencyAttrNoIr,
            4 => Nl80211FrequencyAttr::FrequencyAttrNoIbss,
            5 => Nl80211FrequencyAttr::FrequencyAttrRadar,
            6 => Nl80211FrequencyAttr::FrequencyAttrMaxTxPower,
            7 => Nl80211FrequencyAttr::FrequencyAttrDfsState,
            8 => Nl80211FrequencyAttr::FrequencyAttrDfsTime,
            9 => Nl80211FrequencyAttr::FrequencyAttrNoHt40Minus,
            10 => Nl80211FrequencyAttr::FrequencyAttrNoHt40Plus,
            11 => Nl80211FrequencyAttr::FrequencyAttrNo80mhz,
            12 => Nl80211FrequencyAttr::FrequencyAttrNo160mhz,
            13 => Nl80211FrequencyAttr::FrequencyAttrDfsCacTime,
            14 => Nl80211FrequencyAttr::FrequencyAttrIndoorOnly,
            15 => Nl80211FrequencyAttr::FrequencyAttrIrConcurrent,
            16 => Nl80211FrequencyAttr::FrequencyAttrNo20mhz,
            17 => Nl80211FrequencyAttr::FrequencyAttrNo10mhz,
            18 => Nl80211FrequencyAttr::FrequencyAttrAfterLast,
            _ => Nl80211FrequencyAttr::UnrecognizedConst(code),
        }
    }
}

impl FromSpecImpl<u16> for Nl80211FrequencyAttr {
    open spec fn obeys_from_spec() -> bool {
        true
    }

    open spec fn from_spec(code: u16) -> Self {
        Self::spec_from_code(code)
    }
}

impl From<Nl80211FrequencyAttr> for u16 {
    fn from(value: Nl80211FrequencyAttr) -> (code: u16) {
        match value {
            Nl80211FrequencyAttr::FrequencyAttrInvalid => 0,
            Nl80211FrequencyAttr::FrequencyAttrFreq => 1,
            Nl80211FrequencyAttr::FrequencyAttrDisabled => 2,
            Nl80211FrequencyAttr::FrequencyAttrNoIr => 3,
            Nl80211FrequencyAttr::FrequencyAttrNoIbss => 4,
            Nl80211FrequencyAttr::FrequencyAttrRadar => 5,
            Nl80211FrequencyAttr::FrequencyAttrMaxTxPower => 6,
            Nl80211FrequencyAttr::FrequencyAttrDfsState => 7,
            Nl80211FrequencyAttr::FrequencyAttrDfsTime => 8,
            Nl80211FrequencyAttr::FrequencyAttrNoHt40Minus => 9,
            Nl80211FrequencyAttr::FrequencyAttrNoHt40Plus => 10,
            Nl80211FrequencyAttr::FrequencyAttrNo80mhz => 11,
            Nl80211FrequencyAttr::FrequencyAttrNo160mhz => 12,
            Nl80211FrequencyAttr::FrequencyAttrDfsCacTime => 13,
            Nl80211FrequencyAttr::FrequencyAttrIndoorOnly => 14,
            Nl80211FrequencyAttr::FrequencyAttrIrConcurrent => 15,
            Nl80211FrequencyAttr::FrequencyAttrNo20mhz => 16,
            Nl80211FrequencyAttr::FrequencyAttrNo10mhz => 17,
            Nl80211FrequencyAttr::FrequencyAttrAfterLast => 18,
            Nl80211FrequencyAttr::FrequencyAttrMax => 17,
            Nl80211FrequencyAttr::UnrecognizedConst(code) => code,
        }
    }
}

impl FromSpecImpl<Nl80211FrequencyAttr> for u16 {
    open spec fn obeys_from_spec() -> bool {
        true
    }

    open spec fn from_spec(value: Nl80211FrequencyAttr) -> u16 {
        value.spec_code()
    }
}

/// The kernel's `nl80211_bitrate_attr` enumeration.
#[derive(Clone, Copy, Debug, PartialEq, Eq, PartialOrd, Ord, Hash, Structural)]
pub enum Nl80211BitrateAttr {
    BitrateAttrInvalid,
    BitrateAttrRate,
    BitrateAttr2ghzShortpreamble,
    BitrateAttrAfterLast,
    BitrateAttrMax,
    UnrecognizedConst(u16),
}

impl Nl80211BitrateAttr {
    /// The value that a code stands for; where two names share a code, the
    /// first of them.
    pub open spec fn spec_from_code(code: u16) -> Self {
        match code {
            0 => Nl80211BitrateAttr::BitrateAttrInvalid,
            1 => Nl80211BitrateAttr::BitrateAttrRate,
            2 => Nl80211BitrateAttr::BitrateAttr2ghzShortpreamble,
            3 => Nl80211BitrateAttr::BitrateAttrAfterLast,
            _ => Nl80211BitrateAttr::UnrecognizedConst(code),
        }
    }

    /// The code of a value.
    pub open spec fn spec_code(self) -> u16 {
        match self {
            Nl80211BitrateAttr::BitrateAttrInvalid => 0,
            Nl80211BitrateAttr::BitrateAttrRate => 1,
            Nl80211BitrateAttr::BitrateAttr2ghzShortpreamble => 2,
            Nl80211BitrateAttr::BitrateAttrAfterLast => 3,
            Nl80211BitrateAttr::BitrateAttrMax => 2,
            Nl80211BitrateAttr::UnrecognizedConst(code) => code,
        }
    }

    /// Whether the value is none that the vocabulary names.
    pub fn is_unrecognized(&self) -> (r: bool)
        ensures
            r == (*self is UnrecognizedConst),
    {
        match self {
            Nl80211BitrateAttr::UnrecognizedConst(_) => true,
            _ => false,
        }
    }

    /// Every code is the code of the value it stands for.
    pub proof fn lemma_code_round_trip(code: u16)
        ensures
            Self::spec_from_code(code).spec_code() == code,
    {
    }
}

impl From<u16> for Nl80211BitrateAttr {
    fn from(code: u16) -> (value: Self) {
        match code {
            0 => Nl80211BitrateAttr::BitrateAttrInvalid,
            1 => Nl80211BitrateAttr::BitrateAttrRate,
            2 => Nl80211BitrateAttr::BitrateAttr2ghzShortpreamble,
            3 => Nl80211BitrateAttr::BitrateAttrAfterLast,
            _ => Nl80211BitrateAttr::UnrecognizedConst(code),
        }
    }
}

impl FromSpecImpl<u16> for Nl80211BitrateAttr {
    open spec fn obeys_from_spec() -> bool {
        true
    }

    open spec fn from_spec(code: u16) -> Self {
        Self::spec_from_code(code)
    }
}

impl From<Nl80211BitrateAttr> for u16 {
    fn from(value: Nl80211BitrateAttr) -> (code: u16) {
        match value {
            Nl80211BitrateAttr::BitrateAttrInvalid => 0,
            Nl80211BitrateAttr::BitrateAttrRate => 1,
            Nl80211BitrateAttr::BitrateAttr2ghzShortpreamble => 2,
            Nl80211BitrateAttr::BitrateAttrAfterLast => 3,
            Nl80211BitrateAttr::BitrateAttrMax => 2,
            Nl80211BitrateAttr::UnrecognizedConst(code) => code,
        }
    }
}

impl FromSpecImpl<Nl80211BitrateAttr> for u16 {
    open spec fn obeys_from_spec() -> bool {
        true
    }

    open spec fn from_spec(value: Nl80211BitrateAttr) -> u16 {
        value.spec_code()
    }
}

/// The kernel's `nl80211_reg_initiator` enumeration.
#[derive(Clone, Copy, Debug, PartialEq, Eq, PartialOrd, Ord, Hash, Structural)]
pub enum Nl80211RegInitiator {
    RegdomSetByCore,
    RegdomSetByUser,
    RegdomSetByDriver,
    RegdomSetByCountryIe,
    UnrecognizedConst(u16),
}

impl Nl80211RegInitiator {
    /// The value that a code stands for; where two names share a code, the
    /// first of them.
    pub open spec fn spec_from_code(code: u16) -> Self {
        match code {
            0 => Nl80211RegInitiator::RegdomSetByCore,
            1 => Nl80211RegInitiator::RegdomSetByUser,
            2 => Nl80211RegInitiator::RegdomSetByDriver,
            3 => Nl80211RegInitiator::RegdomSetByCountryIe,
            _ => Nl80211RegInitiator::UnrecognizedConst(code),
        }
    }

    /// The code of a value.
    pub open spec fn spec_code(self) -> u16 {
        match self {
            Nl80211RegInitiator::RegdomSetByCore => 0,
            Nl80211RegInitiator::RegdomSetByUser => 1,
            Nl80211RegInitiator::RegdomSetByDriver => 2,
            Nl80211RegInitiator::RegdomSetByCountryIe => 3,
            Nl80211RegInitiator::UnrecognizedConst(code) => code,
        }
    }

    /// Whether the value is none that the vocabulary names.
    pub fn is_unrecognized(&self) -> (r: bool)
        ensures
            r == (*self is UnrecognizedConst),
    {
        match self {
            Nl80211RegInitiator::UnrecognizedConst(_) => true,
            _ => false,
        }
    }

    /// Every code is the code of the value it stands for.
    pub proof fn lemma_code_round_trip(code: u16)
        ensures
            Self::spec_from_code(code).spec_code() == code,
    {
    }
}

impl From<u16> for Nl80211RegInitiator {
    fn from(code: u16) -> (value: Self) {
        match code {
            0 => Nl80211RegInitiator::RegdomSetByCore,
            1 => Nl80211RegInitiator::RegdomSetByUser,
            2 => Nl80211RegInitiator::RegdomSetByDriver,
            3 => Nl80211RegInitiator::RegdomSetByCountryIe,
            _ => Nl80211RegInitiator::UnrecognizedConst(code),
        }
    }
}

impl FromSpecImpl<u16> for Nl80211RegInitiator {
    open spec fn obeys_from_spec() -> bool {
        true
    }

    open spec fn from_spec(code: u16) -> Self {
        Self::spec_from_code(code)
    }
}

impl From<Nl80211RegInitiator> for u16 {
    fn from(value: Nl80211RegInitiator) -> (code: u16) {
        match value {
            Nl80211RegInitiator::RegdomSetByCore => 0,
            Nl80211RegInitiator::RegdomSetByUser => 1,
            Nl80211RegInitiator::RegdomSetByDriver => 2,
            Nl80211RegInitiator::RegdomSetByCountryIe => 3,
            Nl80211RegInitiator::UnrecognizedConst(code) => code,
        }
    }
}

impl FromSpecImpl<Nl80211RegInitiator> for u16 {
    open spec fn obeys_from_spec() -> bool {
        true
    }

    open spec fn from_spec(value: Nl80211RegInitiator) -> u16 {
        value.spec_code()
    }
}

/// The kernel's `nl80211_reg_type` enumeration.
#[derive(Clone, Copy, Debug, PartialEq, Eq, PartialOrd, Ord, Hash, Structural)]
pub enum Nl80211RegType {
    RegdomTypeCountry,
    RegdomTypeWorld,
    RegdomTypeCustomWorld,
    RegdomTypeIntersection,
    UnrecognizedConst(u16),
}

impl Nl80211RegType {
    /// The value that a code stands for; where two names share a code, the
    /// first of them.
    pub open spec fn spec_from_code(code: u16) -> Self {
        match code {
            0 => Nl80211RegType::RegdomTypeCountry,
            1 => Nl80211RegType::RegdomTypeWorld,
            2 => Nl80211RegType::RegdomTypeCustomWorld,
            3 => Nl80211RegType::RegdomTypeIntersection,
            _ => Nl80211RegType::UnrecognizedConst(code),
        }
    }

    /// The code of a value.
    pub open spec fn spec_code(self) -> u16 {
        match self {
            Nl80211RegType::RegdomTypeCountry => 0,
            Nl80211RegType::RegdomTypeWorld => 1,
            Nl80211RegType::RegdomTypeCustomWorld => 2,
            Nl80211RegType::RegdomTypeIntersection => 3,
            Nl80211RegType::UnrecognizedConst(code) => code,
        }
    }

    /// Whether the value is none that the vocabulary names.
    pub fn is_unrecognized(&self) -> (r: bool)
        ensures
            r == (*self is UnrecognizedConst),
    {
        match self {
            Nl80211RegType::UnrecognizedConst(_) => true,
            _ => false,
        }
    }

    /// Every code is the code of the value it stands for.
    pub proof fn lemma_code_round_trip(code: u16)
        ensures
            Self::spec_from_code(code).spec_code() == code,
    {
    }
}

impl From<u16> for Nl80211RegType {
    fn from(code: u16) -> (value: Self) {
        match code {
            0 => Nl80211RegType::RegdomTypeCountry,
            1 => Nl80211RegType::RegdomTypeWorld,
            2 => Nl80211RegType::RegdomTypeCustomWorld,
            3 => Nl80211RegType::RegdomTypeIntersection,
            _ => Nl80211RegType::UnrecognizedConst(code),
        }
    }
}

impl FromSpecImpl<u16> for Nl80211RegType {
    open spec fn obeys_from_spec() -> bool {
        true
    }

    open spec fn from_spec(code: u16) -> Self {
        Self::spec_from_code(code)
    }
}

impl From<Nl80211RegType> for u16 {
    fn from(value: Nl80211RegType) -> (code: u16) {
        match value {
            Nl80211RegType::RegdomTypeCountry => 0,
            Nl80211RegType::RegdomTypeWorld => 1,
            Nl80211RegType::RegdomTypeCustomWorld => 2,
            Nl80211RegType::RegdomTypeIntersection => 3,
            Nl80211RegType::UnrecognizedConst(code) => code,
        }
    }
}

impl FromSpecImpl<Nl80211RegType> for u16 {
    open spec fn obeys_from_spec() -> bool {
        true
    }

    open spec fn from_spec(value: Nl80211RegType) -> u16 {
        value.spec_code()
    }
}

/// The kernel's `nl80211_reg_rule_attr` enumeration.
#[derive(Clone, Copy, Debug, PartialEq, Eq, PartialOrd, Ord, Hash, Structural)]
pub enum Nl80211RegRuleAttr {
    RegRuleAttrInvalid,
    AttrRegRuleFlags,
    AttrFreqRangeStart,
    AttrFreqRangeEnd,
    AttrFreqRangeMaxBw,
    AttrPowerRuleMaxAntGain,
    AttrPowerRuleMaxEirp,
    AttrDfsCacTime,
    RegRuleAttrAfterLast,
    RegRuleAttrMax,
    UnrecognizedConst(u16),
}

impl Nl80211RegRuleAttr {
    /// The value that a code stands for; where two names share a code, the
    /// first of them.
    pub open spec fn spec_from_code(code: u16) -> Self {
        match code {
            0 => Nl80211RegRuleAttr::RegRuleAttrInvalid,
            1 => Nl80211RegRuleAttr::AttrRegRuleFlags,
            2 => Nl80211RegRuleAttr::AttrFreqRangeStart,
            3 => Nl80211RegRuleAttr::AttrFreqRangeEnd,
            4 => Nl80211RegRuleAttr::AttrFreqRangeMaxBw,
            5 => Nl80211RegRuleAttr::AttrPowerRuleMaxAntGain,
            6 => Nl80211RegRuleAttr::AttrPowerRuleMaxEirp,
            7 => Nl80211RegRuleAttr::AttrDfsCacTime,
            8 => Nl80211RegRuleAttr::RegRuleAttrAfterLast,
            _ => Nl80211RegRuleAttr::UnrecognizedConst(code),
        }
    }

    /// The code of a value.
    pub open spec fn spec_code(self) -> u16 {
        match self {
            Nl80211RegRuleAttr::RegRuleAttrInvalid => 0,
            Nl80211RegRuleAttr::AttrRegRuleFlags => 1,
            Nl80211RegRuleAttr::AttrFreqRangeStart => 2,
            Nl80211RegRuleAttr::AttrFreqRangeEnd => 3,
            Nl80211RegRuleAttr::AttrFreqRangeMaxBw => 4,
            Nl80211RegRuleAttr::AttrPowerRuleMaxAntGain => 5,
            Nl80211RegRuleAttr::AttrPowerRuleMaxEirp => 6,
            Nl80211RegRuleAttr::AttrDfsCacTime => 7,
            Nl80211RegRuleAttr::RegRuleAttrAfterLast => 8,
            Nl80211RegRuleAttr::RegRuleAttrMax => 7,
            Nl80211RegRuleAttr::UnrecognizedConst(code) => code,
        }
    }

    /// Whether the value is none that the vocabulary names.
    pub fn is_unrecognized(&self) -> (r: bool)
        ensures
            r == (*self is UnrecognizedConst),
    {
        match self {
            Nl80211RegRuleAttr::UnrecognizedConst(_) => true,
            _ => false,
        }
    }

    /// Every code is the code of the value it stands for.
    pub proof fn lemma_code_round_trip(code: u16)
        ensures
            Self::spec_from_code(code).spec_code() == code,
    {
    }
}

impl From<u16> for Nl80211RegRuleAttr {
    fn from(code: u16) -> (value: Self) {
        match code {
            0 => Nl80211RegRuleAttr::RegRuleAttrInvalid,
            1 => Nl80211RegRuleAttr::AttrRegRuleFlags,
            2 => Nl80211RegRuleAttr::AttrFreqRangeStart,
            3 => Nl80211RegRuleAttr::AttrFreqRangeEnd,
            4 => Nl80211RegRuleAttr::AttrFreqRangeMaxBw,
            5 => Nl80211RegRuleAttr::AttrPowerRuleMaxAntGain,
            6 => Nl80211RegRuleAttr::AttrPowerRuleMaxEirp,
            7 => Nl80211RegRuleAttr::AttrDfsCacTime,
            8 => Nl80211RegRuleAttr::RegRuleAttrAfterLast,
            _ => Nl80211RegRuleAttr::UnrecognizedConst(code),
        }
    }
}

impl FromSpecImpl<u16> for Nl80211RegRuleAttr {
    open spec fn obeys_from_spec() -> bool {
        true
    }

    open spec fn from_spec(code: u16) -> Self {
        Self::spec_from_code(code)
    }
}

impl From<Nl80211RegRuleAttr> for u16 {
    fn from(value: Nl80211RegRuleAttr) -> (code: u16) {
        match value {
            Nl80211RegRuleAttr::RegRuleAttrInvalid => 0,
            Nl80211RegRuleAttr::AttrRegRuleFlags => 1,
            Nl80211RegRuleAttr::AttrFreqRangeStart => 2,
            Nl80211RegRuleAttr::AttrFreqRangeEnd => 3,
            Nl80211RegRuleAttr::AttrFreqRangeMaxBw => 4,
            Nl80211RegRuleAttr::AttrPowerRuleMaxAntGain => 5,
            Nl80211RegRuleAttr::AttrPowerRuleMaxEirp => 6,
            Nl80211RegRuleAttr::AttrDfsCacTime => 7,
            Nl80211RegRuleAttr::RegRuleAttrAfterLast => 8,
            Nl80211RegRuleAttr::RegRuleAttrMax => 7,
            Nl80211RegRuleAttr::UnrecognizedConst(code) => code,
        }
    }
}

impl FromSpecImpl<Nl80211RegRuleAttr> for u16 {
    open spec fn obeys_from_spec() -> bool {
        true
    }

    open spec fn from_spec(value: Nl80211RegRuleAttr) -> u16 {
        value.spec_code()
    }
}

/// The kernel's `nl80211_sched_scan_match_attr` enumeration.
#[derive(Clone, Copy, Debug, PartialEq, Eq, PartialOrd, Ord, Hash, Structural)]
pub enum Nl80211SchedScanMatchAttr {
    SchedScanMatchAttrInvalid,
    SchedScanMatchAttrSsid,
    SchedScanMatchAttrRssi,
    SchedScanMatchAttrAfterLast,
    SchedScanMatchAttrMax,
    UnrecognizedConst(u16),
}

impl Nl80211SchedScanMatchAttr {
    /// The value that a code stands for; where two names share a code, the
    /// first of them.
    pub open spec fn spec_from_code(code: u16) -> Self {
        match code {
            0 => Nl80211SchedScanMatchAttr::SchedScanMatchAttrInvalid,
            1 => Nl80211SchedScanMatchAttr::SchedScanMatchAttrSsid,
            2 => Nl80211SchedScanMatchAttr::SchedScanMatchAttrRssi,
            3 => Nl80211SchedScanMatchAttr::SchedScanMatchAttrAfterLast,
            _ => Nl80211SchedScanMatchAttr::UnrecognizedConst(code),
        }
    }

    /// The code of a value.
    pub open spec fn spec_code(self) -> u16 {
        match self {
            Nl80211SchedScanMatchAttr::SchedScanMatchAttrInvalid => 0,
            Nl80211SchedScanMatchAttr::SchedScanMatchAttrSsid => 1,
            Nl80211SchedScanMatchAttr::SchedScanMatchAttrRssi => 2,
            Nl80211SchedScanMatchAttr::SchedScanMatchAttrAfterLast => 3,
            Nl80211SchedScanMatchAttr::SchedScanMatchAttrMax => 2,
            Nl80211SchedScanMatchAttr::UnrecognizedConst(code) => code,
        }
    }

    /// Whether the value is none that the vocabulary names.
    pub fn is_unrecognized(&self) -> (r: bool)
        ensures
            r == (*self is UnrecognizedConst),
    {
        match self {
            Nl80211SchedScanMatchAttr::UnrecognizedConst(_) => true,
            _ => false,
        }
    }

    /// Every code is the code of the value it stands for.
    pub proof fn lemma_code_round_trip(code: u16)
        ensures
            Self::spec_from_code(code).spec_code() == code,
    {
    }
}

impl From<u16> for Nl80211SchedScanMatchAttr {
    fn from(code: u16) -> (value: Self) {
        match code {
            0 => Nl80211SchedScanMatchAttr::SchedScanMatchAttrInvalid,
            1 => Nl80211SchedScanMatchAttr::SchedScanMatchAttrSsid,
            2 => Nl80211SchedScanMatchAttr::SchedScanMatchAttrRssi,
            3 => Nl80211SchedScanMatchAttr::SchedScanMatchAttrAfterLast,
            _ => Nl80211SchedScanMatchAttr::UnrecognizedConst(code),
        }
    }
}

impl FromSpecImpl<u16> for Nl80211SchedScanMatchAttr {
    open spec fn obeys_from_spec() -> bool {
        true
    }

    open spec fn from_spec(code: u16) -> Self {
        Self::spec_from_code(code)
    }
}

impl From<Nl80211SchedScanMatchAttr> for u16 {
    fn from(value: Nl80211SchedScanMatchAttr) -> (code: u16) {
        match value {
            Nl80211SchedScanMatchAttr::SchedScanMatchAttrInvalid => 0,
            Nl80211SchedScanMatchAttr::SchedScanMatchAttrSsid => 1,
            Nl80211SchedScanMatchAttr::SchedScanMatchAttrRssi => 2,
            Nl80211SchedScanMatchAttr::SchedScanMatchAttrAfterLast => 3,
            Nl80211SchedScanMatchAttr::SchedScanMatchAttrMax => 2,
            Nl80211SchedScanMatchAttr::UnrecognizedConst(code) => code,
        }
    }
}

impl FromSpecImpl<Nl80211SchedScanMatchAttr> for u16 {
    open spec fn obeys_from_spec() -> bool {
        true
    }

    open spec fn from_spec(value: Nl80211SchedScanMatchAttr) -> u16 {
        value.spec_code()
    }
}

/// The kernel's `nl80211_reg_rule_flags` enumeration.
#[derive(Clone, Copy, Debug, PartialEq, Eq, PartialOrd, Ord, Hash, Structural)]
pub enum Nl80211RegRuleFlags {
    RrfNoOfdm,
    RrfNoCck,
    RrfNoIndoor,
    RrfNoOutdoor,
    RrfDfs,
    RrfPtpOnly,
    RrfPtmpOnly,
    RrfNoIr,
    RrfNoIbss,
    RrfAutoBw,
    RrfIrConcurrent,
    RrfNoHt40minus,
    RrfNoHt40plus,
    RrfNo80mhz,
    UnrecognizedConst(u16),
}

impl Nl80211RegRuleFlags {
    /// The value that a code stands for; where two names share a code, the
    /// first of them.
    pub open spec fn spec_from_code(code: u16) -> Self {
        match code {
            1 => Nl80211RegRuleFlags::RrfNoOfdm,
            2 => Nl80211RegRuleFlags::RrfNoCck,
            4 => Nl80211RegRuleFlags::RrfNoIndoor,
            8 => Nl80211RegRuleFlags::RrfNoOutdoor,
            16 => Nl80211RegRuleFlags::RrfDfs,
            32 => Nl80211RegRuleFlags::RrfPtpOnly,
            64 => Nl80211RegRuleFlags::RrfPtmpOnly,
            128 => Nl80211RegRuleFlags::RrfNoIr,
            256 => Nl80211RegRuleFlags::RrfNoIbss,
            2048 => Nl80211RegRuleFlags::RrfAutoBw,
            4096 => Nl80211RegRuleFlags::RrfIrConcurrent,
            8192 => Nl80211RegRuleFlags::RrfNoHt40minus,
            16384 => Nl80211RegRuleFlags::RrfNoHt40plus,
            32768 => Nl80211RegRuleFlags::RrfNo80mhz,
            _ => Nl80211RegRuleFlags::UnrecognizedConst(code),
        }
    }

    /// The code of a value.
    pub open spec fn spec_code(self) -> u16 {
        match self {
            Nl80211RegRuleFlags::RrfNoOfdm => 1,
            Nl80211RegRuleFlags::RrfNoCck => 2,
            Nl80211RegRuleFlags::RrfNoIndoor => 4,
            Nl80211RegRuleFlags::RrfNoOutdoor => 8,
            Nl80211RegRuleFlags::RrfDfs => 16,
            Nl80211RegRuleFlags::RrfPtpOnly => 32,
            Nl80211RegRuleFlags::RrfPtmpOnly => 64,
            Nl80211RegRuleFlags::RrfNoIr => 128,
            Nl80211RegRuleFlags::RrfNoIbss => 256,
            Nl80211RegRuleFlags::RrfAutoBw => 2048,
            Nl80211RegRuleFlags::RrfIrConcurrent => 4096,
            Nl80211RegRuleFlags::RrfNoHt40minus => 8192,
            Nl80211RegRuleFlags::RrfNoHt40plus => 16384,
            Nl80211RegRuleFlags::RrfNo80mhz => 32768,
            Nl80211RegRuleFlags::UnrecognizedConst(code) => code,
        }
    }

    /// Whether the value is none that the vocabulary names.
    pub fn is_unrecognized(&self) -> (r: bool)
        ensures
            r == (*self is UnrecognizedConst),
    {
        match self {
            Nl80211RegRuleFlags::UnrecognizedConst(_) => true,
            _ => false,
        }
    }

    /// Every code is the code of the value it stands for.
    pub proof fn lemma_code_round_trip(code: u16)
        ensures
            Self::spec_from_code(code).spec_code() == code,
    {
    }
}

impl From<u16> for Nl80211RegRuleFlags {
    fn from(code: u16) -> (value: Self) {
        match code {
            1 => Nl80211RegRuleFlags::RrfNoOfdm,
            2 => Nl80211RegRuleFlags::RrfNoCck,
            4 => Nl80211RegRuleFlags::RrfNoIndoor,
            8 => Nl80211RegRuleFlags::RrfNoOutdoor,
            16 => Nl80211RegRuleFlags::RrfDfs,
            32 => Nl80211RegRuleFlags::RrfPtpOnly,
            64 => Nl80211RegRuleFlags::RrfPtmpOnly,
            128 => Nl80211RegRuleFlags::RrfNoIr,
            256 => Nl80211RegRuleFlags::RrfNoIbss,
            2048 => Nl80211RegRuleFlags::RrfAutoBw,
            4096 => Nl80211RegRuleFlags::RrfIrConcurrent,
            8192 => Nl80211RegRuleFlags::RrfNoHt40minus,
            16384 => Nl80211RegRuleFlags::RrfNoHt40plus,
            32768 => Nl80211RegRuleFlags::RrfNo80mhz,
            _ => Nl80211RegRuleFlags::UnrecognizedConst(code),
        }
    }
}

impl FromSpecImpl<u16> for Nl80211RegRuleFlags {
    open spec fn obeys_from_spec() -> bool {
        true
    }

    open spec fn from_spec(code: u16) -> Self {
        Self::spec_from_code(code)
    }
}

impl From<Nl80211RegRuleFlags> for u16 {
    fn from(value: Nl80211RegRuleFlags) -> (code: u16) {
        match value {
            Nl80211RegRuleFlags::RrfNoOfdm => 1,
            Nl80211RegRuleFlags::RrfNoCck => 2,
            Nl80211RegRuleFlags::RrfNoIndoor => 4,
            Nl80211RegRuleFlags::RrfNoOutdoor => 8,
            Nl80211RegRuleFlags::RrfDfs => 16,
            Nl80211RegRuleFlags::RrfPtpOnly => 32,
            Nl80211RegRuleFlags::RrfPtmpOnly => 64,
            Nl80211RegRuleFlags::RrfNoIr => 128,
            Nl80211RegRuleFlags::RrfNoIbss => 256,
            Nl80211RegRuleFlags::RrfAutoBw => 2048,
            Nl80211RegRuleFlags::RrfIrConcurrent => 4096,
            Nl80211RegRuleFlags::RrfNoHt40minus => 8192,
            Nl80211RegRuleFlags::RrfNoHt40plus => 16384,
            Nl80211RegRuleFlags::RrfNo80mhz => 32768,
            Nl80211RegRuleFlags::UnrecognizedConst(code) => code,
        }
    }
}

impl FromSpecImpl<Nl80211RegRuleFlags> for u16 {
    open spec fn obeys_from_spec() -> bool {
        true
    }

    open spec fn from_spec(value: Nl80211RegRuleFlags) -> u16 {
        value.spec_code()
    }
}

/// The kernel's `nl80211_dfs_regions` enumeration.
#[derive(Clone, Copy, Debug, PartialEq, Eq, PartialOrd, Ord, Hash, Structural)]
pub enum Nl80211DfsRegions {
    DfsUnset,
    DfsFcc,
    DfsEtsi,
    DfsJp,
    UnrecognizedConst(u16),
}

impl Nl80211DfsRegions {
    /// The value that a code stands for; where two names share a code, the
    /// first of them.
    pub open spec fn spec_from_code(code: u16) -> Self {
        match code {
            0 => Nl80211DfsRegions::DfsUnset,
            1 => Nl80211DfsRegions::DfsFcc,
            2 => Nl80211DfsRegions::DfsEtsi,
            3 => Nl80211DfsRegions::DfsJp,
            _ => Nl80211DfsRegions::UnrecognizedConst(code),
        }
    }

    /// The code of a value.
    pub open spec fn spec_code(self) -> u16 {
        match self {
            Nl80211DfsRegions::DfsUnset => 0,
            Nl80211DfsRegions::DfsFcc => 1,
            Nl80211DfsRegions::DfsEtsi => 2,
            Nl80211DfsRegions::DfsJp => 3,
            Nl80211DfsRegions::UnrecognizedConst(code) => code,
        }
    }

    /// Whether the value is none that the vocabulary names.
    pub fn is_unrecognized(&self) -> (r: bool)
        ensures
            r == (*self is UnrecognizedConst),
    {
        match self {
            Nl80211DfsRegions::UnrecognizedConst(_) => true,
            _ => false,
        }
    }

    /// Every code is the code of the value it stands for.
    pub proof fn lemma_code_round_trip(code: u16)
        ensures
            Self::spec_from_code(code).spec_code() == code,
    {
    }
}

impl From<u16> for Nl80211DfsRegions {
    fn from(code: u16) -> (value: Self) {
        match code {
            0 => Nl80211DfsRegions::DfsUnset,
            1 => Nl80211DfsRegions::DfsFcc,
            2 => Nl80211DfsRegions::DfsEtsi,
            3 => Nl80211DfsRegions::DfsJp,
            _ => Nl80211DfsRegions::UnrecognizedConst(code),
        }
    }
}

impl FromSpecImpl<u16> for Nl80211DfsRegions {
    open spec fn obeys_from_spec() -> bool {
        true
    }

    open spec fn from_spec(code: u16) -> Self {
        Self::spec_from_code(code)
    }
}

impl From<Nl80211DfsRegions> for u16 {
    fn from(value: Nl80211DfsRegions) -> (code: u16) {
        match value {
            Nl80211DfsRegions::DfsUnset => 0,
            Nl80211DfsRegions::DfsFcc => 1,
            Nl80211DfsRegions::DfsEtsi => 2,
            Nl80211DfsRegions::DfsJp => 3,
            Nl80211DfsRegions::UnrecognizedConst(code) => code,
        }
    }
}

impl FromSpecImpl<Nl80211DfsRegions> for u16 {
    open spec fn obeys_from_spec() -> bool {
        true
    }

    open spec fn from_spec(value: Nl80211DfsRegions) -> u16 {
        value.spec_code()
    }
}

/// The kernel's `nl80211_user_reg_hint_type` enumeration.
#[derive(Clone, Copy, Debug, PartialEq, Eq, PartialOrd, Ord, Hash, Structural)]
pub enum Nl80211UserRegHintType {
    UserRegHintUser,
    UserRegHintCellBase,
    UserRegHintIndoor,
    UnrecognizedConst(u16),
}

impl Nl80211UserRegHintType {
    /// The value that a code stands for; where two names share a code, the
    /// first of them.
    pub open spec fn spec_from_code(code: u16) -> Self {
        match code {
            0 => Nl80211UserRegHintType::UserRegHintUser,
            1 => Nl80211UserRegHintType::UserRegHintCellBase,
            2 => Nl80211UserRegHintType::UserRegHintIndoor,
            _ => Nl80211UserRegHintType::UnrecognizedConst(code),
        }
    }

    /// The code of a value.
    pub open spec fn spec_code(self) -> u16 {
        match self {
            Nl80211UserRegHintType::UserRegHintUser => 0,
            Nl80211UserRegHintType::UserRegHintCellBase => 1,
            Nl80211UserRegHintType::UserRegHintIndoor => 2,
            Nl80211UserRegHintType::UnrecognizedConst(code) => code,
        }
    }

    /// Whether the value is none that the vocabulary names.
    pub fn is_unrecognized(&self) -> (r: bool)
        ensures
            r == (*self is UnrecognizedConst),
    {
        match self {
            Nl80211UserRegHintType::UnrecognizedConst(_) => true,
            _ => false,
        }
    }

    /// Every code is the code of the value it stands for.
    pub proof fn lemma_code_round_trip(code: u16)
        ensures
            Self::spec_from_code(code).spec_code() == code,
    {
    }
}

impl From<u16> for Nl80211UserRegHintType {
    fn from(code: u16) -> (value: Self) {
        match code {
            0 => Nl80211UserRegHintType::UserRegHintUser,
            1 => Nl80211UserRegHintType::UserRegHintCellBase,
            2 => Nl80211UserRegHintType::UserRegHintIndoor,
            _ => Nl80211UserRegHintType::UnrecognizedConst(code),
        }
    }
}

impl FromSpecImpl<u16> for Nl80211UserRegHintType {
    open spec fn obeys_from_spec() -> bool {
        true
    }

    open spec fn from_spec(code: u16) -> Self {
        Self::spec_from_code(code)
    }
}

impl From<Nl80211UserRegHintType> for u16 {
    fn from(value: Nl80211UserRegHintType) -> (code: u16) {
        match value {
            Nl80211UserRegHintType::UserRegHintUser => 0,
            Nl80211UserRegHintType::UserRegHintCellBase => 1,
            Nl80211UserRegHintType::UserRegHintIndoor => 2,
            Nl80211UserRegHintType::UnrecognizedConst(code) => code,
        }
    }
}

impl FromSpecImpl<Nl80211UserRegHintType> for u16 {
    open spec fn obeys_from_spec() -> bool {
        true
    }

    open spec fn from_spec(value: Nl80211UserRegHintType) -> u16 {
        value.spec_code()
    }
}

/// The kernel's `nl80211_survey_info` enumeration.
#[derive(Clone, Copy, Debug, PartialEq, Eq, PartialOrd, Ord, Hash, Structural)]
pub enum Nl80211SurveyInfo {
    SurveyInfoInvalid,
    SurveyInfoFrequency,
    SurveyInfoNoise,
    SurveyInfoInUse,
    SurveyInfoTime,
    SurveyInfoTimeBusy,
    SurveyInfoTimeExtBusy,
    SurveyInfoTimeRx,
    SurveyInfoTimeTx,
    SurveyInfoTimeScan,
    SurveyInfoPad,
    SurveyInfoAfterLast,
    SurveyInfoMax,
    UnrecognizedConst(u16),
}

impl Nl80211SurveyInfo {
    /// The value that a code stands for; where two names share a code, the
    /// first of them.
    pub open spec fn spec_from_code(code: u16) -> Self {
        match code {
            0 => Nl80211SurveyInfo::SurveyInfoInvalid,
            1 => Nl80211SurveyInfo::SurveyInfoFrequency,
            2 => Nl80211SurveyInfo::SurveyInfoNoise,
            3 => Nl80211SurveyInfo::SurveyInfoInUse,
            4 => Nl80211SurveyInfo::SurveyInfoTime,
            5 => Nl80211SurveyInfo::SurveyInfoTimeBusy,
            6 => Nl80211SurveyInfo::SurveyInfoTimeExtBusy,
            7 => Nl80211SurveyInfo::SurveyInfoTimeRx,
            8 => Nl80211SurveyInfo::SurveyInfoTimeTx,
            9 => Nl80211SurveyInfo::SurveyInfoTimeScan,
            10 => Nl80211SurveyInfo::SurveyInfoPad,
            11 => Nl80211SurveyInfo::SurveyInfoAfterLast,
            _ => Nl80211SurveyInfo::UnrecognizedConst(code),
        }
    }

    /// The code of a value.
    pub open spec fn spec_code(self) -> u16 {
        match self {
            Nl80211SurveyInfo::SurveyInfoInvalid => 0,
            Nl80211SurveyInfo::SurveyInfoFrequency => 1,
            Nl80211SurveyInfo::SurveyInfoNoise => 2,
            Nl80211SurveyInfo::SurveyInfoInUse => 3,
            Nl80211SurveyInfo::SurveyInfoTime => 4,
            Nl80211SurveyInfo::SurveyInfoTimeBusy => 5,
            Nl80211SurveyInfo::SurveyInfoTimeExtBusy => 6,
            Nl80211SurveyInfo::SurveyInfoTimeRx => 7,
            Nl80211SurveyInfo::SurveyInfoTimeTx => 8,
            Nl80211SurveyInfo::SurveyInfoTimeScan => 9,
            Nl80211SurveyInfo::SurveyInfoPad => 10,
            Nl80211SurveyInfo::SurveyInfoAfterLast => 11,
            Nl80211SurveyInfo::SurveyInfoMax => 10,
            Nl80211SurveyInfo::UnrecognizedConst(code) => code,
        }
    }

    /// Whether the value is none that the vocabulary names.
    pub fn is_unrecognized(&self) -> (r: bool)
        ensures
            r == (*self is UnrecognizedConst),
    {
        match self {
            Nl80211SurveyInfo::UnrecognizedConst(_) => true,
            _ => false,
        }
    }

    /// Every code is the code of the value it stands for.
    pub proof fn lemma_code_round_trip(code: u16)
        ensures
            Self::spec_from_code(code).spec_code() == code,
    {
    }
}

impl From<u16> for Nl80211SurveyInfo {
    fn from(code: u16) -> (value: Self) {
        match code {
            0 => Nl80211SurveyInfo::SurveyInfoInvalid,
            1 => Nl80211SurveyInfo::SurveyInfoFrequency,
            2 => Nl80211SurveyInfo::SurveyInfoNoise,
            3 => Nl80211SurveyInfo::SurveyInfoInUse,
            4 => Nl80211SurveyInfo::SurveyInfoTime,
            5 => Nl80211SurveyInfo::SurveyInfoTimeBusy,
            6 => Nl80211SurveyInfo::SurveyInfoTimeExtBusy,
            7 => Nl80211SurveyInfo::SurveyInfoTimeRx,
            8 => Nl80211SurveyInfo::SurveyInfoTimeTx,
            9 => Nl80211SurveyInfo::SurveyInfoTimeScan,
            10 => Nl80211SurveyInfo::SurveyInfoPad,
            11 => Nl80211SurveyInfo::SurveyInfoAfterLast,
            _ => Nl80211SurveyInfo::UnrecognizedConst(code),
        }
    }
}

impl FromSpecImpl<u16> for Nl80211SurveyInfo {
    open spec fn obeys_from_spec() -> bool {
        true
    }

    open spec fn from_spec(code: u16) -> Self {
        Self::spec_from_code(code)
    }
}

impl From<Nl80211SurveyInfo> for u16 {
    fn from(value: Nl80211SurveyInfo) -> (code: u16) {
        match value {
            Nl80211SurveyInfo::SurveyInfoInvalid => 0,
            Nl80211SurveyInfo::SurveyInfoFrequency => 1,
            Nl80211SurveyInfo::SurveyInfoNoise => 2,
            Nl80211SurveyInfo::SurveyInfoInUse => 3,
            Nl80211SurveyInfo::SurveyInfoTime => 4,
            Nl80211SurveyInfo::SurveyInfoTimeBusy => 5,
            Nl80211SurveyInfo::SurveyInfoTimeExtBusy => 6,
            Nl80211SurveyInfo::SurveyInfoTimeRx => 7,
            Nl80211SurveyInfo::SurveyInfoTimeTx => 8,
            Nl80211SurveyInfo::SurveyInfoTimeScan => 9,
            Nl80211SurveyInfo::SurveyInfoPad => 10,
            Nl80211SurveyInfo::SurveyInfoAfterLast => 11,
            Nl80211SurveyInfo::SurveyInfoMax => 10,
            Nl80211SurveyInfo::UnrecognizedConst(code) => code,
        }
    }
}

impl FromSpecImpl<Nl80211SurveyInfo> for u16 {
    open spec fn obeys_from_spec() -> bool {
        true
    }

    open spec fn from_spec(value: Nl80211SurveyInfo) -> u16 {
        value.spec_code()
    }
}

/// The kernel's `nl80211_mntr_flags` enumeration.
#[derive(Clone, Copy, Debug, PartialEq, Eq, PartialOrd, Ord, Hash, Structural)]
pub enum Nl80211MntrFlags {
    MntrFlagInvalid,
    MntrFlagFcsfail,
    MntrFlagPlcpfail,
    MntrFlagControl,
    MntrFlagOtherBss,
    MntrFlagCookFrames,
    MntrFlagActive,
    MntrFlagAfterLast,
    MntrFlagMax,
    UnrecognizedConst(u16),
}

impl Nl80211MntrFlags {
    /// The value that a code stands for; where two names share a code, the
    /// first of them.
    pub open spec fn spec_from_code(code: u16) -> Self {
        match code {
            0 => Nl80211MntrFlags::MntrFlagInvalid,
            1 => Nl80211MntrFlags::MntrFlagFcsfail,
            2 => Nl80211MntrFlags::MntrFlagPlcpfail,
            3 => Nl80211MntrFlags::MntrFlagControl,
            4 => Nl80211MntrFlags::MntrFlagOtherBss,
            5 => Nl80211MntrFlags::MntrFlagCookFrames,
            6 => Nl80211MntrFlags::MntrFlagActive,
            7 => Nl80211MntrFlags::MntrFlagAfterLast,
            _ => Nl80211MntrFlags::UnrecognizedConst(code),
        }
    }

    /// The code of a value.
    pub open spec fn spec_code(self) -> u16 {
        match self {
            Nl80211MntrFlags::MntrFlagInvalid => 0,
            Nl80211MntrFlags::MntrFlagFcsfail => 1,
            Nl80211MntrFlags::MntrFlagPlcpfail => 2,
            Nl80211MntrFlags::MntrFlagControl => 3,
            Nl80211MntrFlags::MntrFlagOtherBss => 4,
            Nl80211MntrFlags::MntrFlagCookFrames => 5,
            Nl80211MntrFlags::MntrFlagActive => 6,
            Nl80211MntrFlags::MntrFlagAfterLast => 7,
            Nl80211MntrFlags::MntrFlagMax => 6,
            Nl80211MntrFlags::UnrecognizedConst(code) => code,
        }
    }

    /// Whether the value is none that the vocabulary names.
    pub fn is_unrecognized(&self) -> (r: bool)
        ensures
            r == (*self is UnrecognizedConst),
    {
        match self {
            Nl80211MntrFlags::UnrecognizedConst(_) => true,
            _ => false,
        }
    }

    /// Every code is the code of the value it stands for.
    pub proof fn lemma_code_round_trip(code: u16)
        ensures
            Self::spec_from_code(code).spec_code() == code,
    {
    }
}

impl From<u16> for Nl80211MntrFlags {
    fn from(code: u16) -> (value: Self) {
        match code {
            0 => Nl80211MntrFlags::MntrFlagInvalid,
            1 => Nl80211MntrFlags::MntrFlagFcsfail,
            2 => Nl80211MntrFlags::MntrFlagPlcpfail,
            3 => Nl80211MntrFlags::MntrFlagControl,
            4 => Nl80211MntrFlags::MntrFlagOtherBss,
            5 => Nl80211MntrFlags::MntrFlagCookFrames,
            6 => Nl80211MntrFlags::MntrFlagActive,
            7 => Nl80211MntrFlags::MntrFlagAfterLast,
            _ => Nl80211MntrFlags::UnrecognizedConst(code),
        }
    }
}

impl FromSpecImpl<u16> for Nl80211MntrFlags {
    open spec fn obeys_from_spec() -> bool {
        true
    }

    open spec fn from_spec(code: u16) -> Self {
        Self::spec_from_code(code)
    }
}

impl From<Nl80211MntrFlags> for u16 {
    fn from(value: Nl80211MntrFlags) -> (code: u16) {
        match value {
            Nl80211MntrFlags::MntrFlagInvalid => 0,
            Nl80211MntrFlags::MntrFlagFcsfail => 1,
            Nl80211MntrFlags::MntrFlagPlcpfail => 2,
            Nl80211MntrFlags::MntrFlagControl => 3,
            Nl80211MntrFlags::MntrFlagOtherBss => 4,
            Nl80211MntrFlags::MntrFlagCookFrames => 5,
            Nl80211MntrFlags::MntrFlagActive => 6,
            Nl80211MntrFlags::MntrFlagAfterLast => 7,
            Nl80211MntrFlags::MntrFlagMax => 6,
            Nl80211MntrFlags::UnrecognizedConst(code) => code,
        }
    }
}

impl FromSpecImpl<Nl80211MntrFlags> for u16 {
    open spec fn obeys_from_spec() -> bool {
        true
    }

    open spec fn from_spec(value: Nl80211MntrFlags) -> u16 {
        value.spec_code()
    }
}

/// The kernel's `nl80211_mesh_power_mode` enumeration.
#[derive(Clone, Copy, Debug, PartialEq, Eq, PartialOrd, Ord, Hash, Structural)]
pub enum Nl80211MeshPowerMode {
    MeshPowerUnknown,
    MeshPowerActive,
    MeshPowerLightSleep,
    MeshPowerDeepSleep,
    MeshPowerAfterLast,
    MeshPowerMax,
    UnrecognizedConst(u16),
}

impl Nl80211MeshPowerMode {
    /// The value that a code stands for; where two names share a code, the
    /// first of them.
    pub open spec fn spec_from_code(code: u16) -> Self {
        match code {
            0 => Nl80211MeshPowerMode::MeshPowerUnknown,
            1 => Nl80211MeshPowerMode::MeshPowerActive,
            2 => Nl80211MeshPowerMode::MeshPowerLightSleep,
            3 => Nl80211MeshPowerMode::MeshPowerDeepSleep,
            4 => Nl80211MeshPowerMode::MeshPowerAfterLast,
            _ => Nl80211MeshPowerMode::UnrecognizedConst(code),
        }
    }

    /// The code of a value.
    pub open spec fn spec_code(self) -> u16 {
        match self {
            Nl80211MeshPowerMode::MeshPowerUnknown => 0,
            Nl80211MeshPowerMode::MeshPowerActive => 1,
            Nl80211MeshPowerMode::MeshPowerLightSleep => 2,
            Nl80211MeshPowerMode::MeshPowerDeepSleep => 3,
            Nl80211MeshPowerMode::MeshPowerAfterLast => 4,
            Nl80211MeshPowerMode::MeshPowerMax => 3,
            Nl80211MeshPowerMode::UnrecognizedConst(code) => code,
        }
    }

    /// Whether the value is none that the vocabulary names.
    pub fn is_unrecognized(&self) -> (r: bool)
        ensures
            r == (*self is UnrecognizedConst),
    {
        match self {
            Nl80211MeshPowerMode::UnrecognizedConst(_) => true,
            _ => false,
        }
    }

    /// Every code is the code of the value it stands for.
    pub proof fn lemma_code_round_trip(code: u16)
        ensures
            Self::spec_from_code(code).spec_code() == code,
    {
    }
}

impl From<u16> for Nl80211MeshPowerMode {
    fn from(code: u16) -> (value: Self) {
        match code {
            0 => Nl80211MeshPowerMode::MeshPowerUnknown,
            1 => Nl80211MeshPowerMode::MeshPowerActive,
            2 => Nl80211MeshPowerMode::MeshPowerLightSleep,
            3 => Nl80211MeshPowerMode::MeshPowerDeepSleep,
            4 => Nl80211MeshPowerMode::MeshPowerAfterLast,
            _ => Nl80211MeshPowerMode::UnrecognizedConst(code),
        }
    }
}

impl FromSpecImpl<u16> for Nl80211MeshPowerMode {
    open spec fn obeys_from_spec() -> bool {
        true
    }

    open spec fn from_spec(code: u16) -> Self {
        Self::spec_from_code(code)
    }
}

impl From<Nl80211MeshPowerMode> for u16 {
    fn from(value: Nl80211MeshPowerMode) -> (code: u16) {
        match value {
            Nl80211MeshPowerMode::MeshPowerUnknown => 0,
            Nl80211MeshPowerMode::MeshPowerActive => 1,
            Nl80211MeshPowerMode::MeshPowerLightSleep => 2,
            Nl80211MeshPowerMode::MeshPowerDeepSleep => 3,
            Nl80211MeshPowerMode::MeshPowerAfterLast => 4,
            Nl80211MeshPowerMode::MeshPowerMax => 3,
            Nl80211MeshPowerMode::UnrecognizedConst(code) => code,
        }
    }
}

impl FromSpecImpl<Nl80211MeshPowerMode> for u16 {
    open spec fn obeys_from_spec() -> bool {
        true
    }

    open spec fn from_spec(value: Nl80211MeshPowerMode) -> u16 {
        value.spec_code()
    }
}

/// The kernel's `nl80211_meshconf_params` enumeration.
#[derive(Clone, Copy, Debug, PartialEq, Eq, PartialOrd, Ord, Hash, Structural)]
pub enum Nl80211MeshconfParams {
    MeshconfInvalid,
    MeshconfRetryTimeout,
    MeshconfConfirmTimeout,
    MeshconfHoldingTimeout,
    MeshconfMaxPeerLinks,
    MeshconfMaxRetries,
    MeshconfTtl,
    MeshconfAutoOpenPlinks,
    MeshconfHwmpMaxPreqRetries,
    MeshconfPathRefreshTime,
    MeshconfMinDiscoveryTimeout,
    MeshconfHwmpActivePathTimeout,
    MeshconfHwmpPreqMinInterval,
    MeshconfHwmpNetDiamTrvsTime,
    MeshconfHwmpRootmode,
    MeshconfElementTtl,
    MeshconfHwmpRannInterval,
    MeshconfGateAnnouncements,
    MeshconfHwmpPerrMinInterval,
    MeshconfForwarding,
    MeshconfRssiThreshold,
    MeshconfSyncOffsetMaxNeighbor,
    MeshconfHtOpmode,
    MeshconfHwmpPathToRootTimeout,
    MeshconfHwmpRootInterval,
    MeshconfHwmpConfirmationInterval,
    MeshconfPowerMode,
    MeshconfAwakeWindow,
    MeshconfPlinkTimeout,
    MeshconfAttrAfterLast,
    MeshconfAttrMax,
    UnrecognizedConst(u16),
}

impl Nl80211MeshconfParams {
    /// The value that a code stands for; where two names share a code, the
    /// first of them.
    pub open spec fn spec_from_code(code: u16) -> Self {
        match code {
            0 => Nl80211MeshconfParams::MeshconfInvalid,
            1 => Nl80211MeshconfParams::MeshconfRetryTimeout,
            2 => Nl80211MeshconfParams::MeshconfConfirmTimeout,
            3 => Nl80211MeshconfParams::MeshconfHoldingTimeout,
            4 => Nl80211MeshconfParams::MeshconfMaxPeerLinks,
            5 => Nl80211MeshconfParams::MeshconfMaxRetries,
            6 => Nl80211MeshconfParams::MeshconfTtl,
            7 => Nl80211MeshconfParams::MeshconfAutoOpenPlinks,
            8 => Nl80211MeshconfParams::MeshconfHwmpMaxPreqRetries,
            9 => Nl80211MeshconfParams::MeshconfPathRefreshTime,
            10 => Nl80211MeshconfParams::MeshconfMinDiscoveryTimeout,
            11 => Nl80211MeshconfParams::MeshconfHwmpActivePathTimeout,
            12 => Nl80211MeshconfParams::MeshconfHwmpPreqMinInterval,
            13 => Nl80211MeshconfParams::MeshconfHwmpNetDiamTrvsTime,
            14 => Nl80211MeshconfParams::MeshconfHwmpRootmode,
            15 => Nl80211MeshconfParams::MeshconfElementTtl,
            16 => Nl80211MeshconfParams::MeshconfHwmpRannInterval,
            17 => Nl80211MeshconfParams::MeshconfGateAnnouncements,
            18 => Nl80211MeshconfParams::MeshconfHwmpPerrMinInterval,
            19 => Nl80211MeshconfParams::MeshconfForwarding,
            20 => Nl80211MeshconfParams::MeshconfRssiThreshold,
            21 => Nl80211MeshconfParams::MeshconfSyncOffsetMaxNeighbor,
            22 => Nl80211MeshconfParams::MeshconfHtOpmode,
            23 => Nl80211MeshconfParams::MeshconfHwmpPathToRootTimeout,
            24 => Nl80211MeshconfParams::MeshconfHwmpRootInterval,
            25 => Nl80211MeshconfParams::MeshconfHwmpConfirmationInterval,
            26 => Nl80211MeshconfParams::MeshconfPowerMode,
            27 => Nl80211MeshconfParams::MeshconfAwakeWindow,
            28 => Nl80211MeshconfParams::MeshconfPlinkTimeout,
            29 => Nl80211MeshconfParams::MeshconfAttrAfterLast,
            _ => Nl80211MeshconfParams::UnrecognizedConst(code),
        }
    }

    /// The code of a value.
    pub open spec fn spec_code(self) -> u16 {
        match self {
            Nl80211MeshconfParams::MeshconfInvalid => 0,
            Nl80211MeshconfParams::MeshconfRetryTimeout => 1,
            Nl80211MeshconfParams::MeshconfConfirmTimeout => 2,
            Nl80211MeshconfParams::MeshconfHoldingTimeout => 3,
            Nl80211MeshconfParams::MeshconfMaxPeerLinks => 4,
            Nl80211MeshconfParams::MeshconfMaxRetries => 5,
            Nl80211MeshconfParams::MeshconfTtl => 6,
            Nl80211MeshconfParams::MeshconfAutoOpenPlinks => 7,
            Nl80211MeshconfParams::MeshconfHwmpMaxPreqRetries => 8,
            Nl80211MeshconfParams::MeshconfPathRefreshTime => 9,
            Nl80211MeshconfParams::MeshconfMinDiscoveryTimeout => 10,
            Nl80211MeshconfParams::MeshconfHwmpActivePathTimeout => 11,
            Nl80211MeshconfParams::MeshconfHwmpPreqMinInterval => 12,
            Nl80211MeshconfParams::MeshconfHwmpNetDiamTrvsTime => 13,
            Nl80211MeshconfParams::MeshconfHwmpRootmode => 14,
            Nl80211MeshconfParams::MeshconfElementTtl => 15,
            Nl80211MeshconfParams::MeshconfHwmpRannInterval => 16,
            Nl80211MeshconfParams::MeshconfGateAnnouncements => 17,
            Nl80211MeshconfParams::MeshconfHwmpPerrMinInterval => 18,
            Nl80211MeshconfParams::MeshconfForwarding => 19,
            Nl80211MeshconfParams::MeshconfRssiThreshold => 20,
            Nl80211MeshconfParams::MeshconfSyncOffsetMaxNeighbor => 21,
            Nl80211MeshconfParams::MeshconfHtOpmode => 22,
            Nl80211MeshconfParams::MeshconfHwmpPathToRootTimeout => 23,
            Nl80211MeshconfParams::MeshconfHwmpRootInterval => 24,
            Nl80211MeshconfParams::MeshconfHwmpConfirmationInterval => 25,
            Nl80211MeshconfParams::MeshconfPowerMode => 26,
            Nl80211MeshconfParams::MeshconfAwakeWindow => 27,
            Nl80211MeshconfParams::MeshconfPlinkTimeout => 28,
            Nl80211MeshconfParams::MeshconfAttrAfterLast => 29,
            Nl80211MeshconfParams::MeshconfAttrMax => 28,
            Nl80211MeshconfParams::UnrecognizedConst(code) => code,
        }
    }

    /// Whether the value is none that the vocabulary names.
    pub fn is_unrecognized(&self) -> (r: bool)
        ensures
            r == (*self is UnrecognizedConst),
    {
        match self {
            Nl80211MeshconfParams::UnrecognizedConst(_) => true,
            _ => false,
        }
    }

    /// Every code is the code of the value it stands for.
    pub proof fn lemma_code_round_trip(code: u16)
        ensures
            Self::spec_from_code(code).spec_code() == code,
    {
    }
}

impl From<u16> for Nl80211MeshconfParams {
    fn from(code: u16) -> (value: Self) {
        match code {
            0 => Nl80211MeshconfParams::MeshconfInvalid,
            1 => Nl80211MeshconfParams::MeshconfRetryTimeout,
            2 => Nl80211MeshconfParams::MeshconfConfirmTimeout,
            3 => Nl80211MeshconfParams::MeshconfHoldingTimeout,
            4 => Nl80211MeshconfParams::MeshconfMaxPeerLinks,
            5 => Nl80211MeshconfParams::MeshconfMaxRetries,
            6 => Nl80211MeshconfParams::MeshconfTtl,
            7 => Nl80211MeshconfParams::MeshconfAutoOpenPlinks,
            8 => Nl80211MeshconfParams::MeshconfHwmpMaxPreqRetries,
            9 => Nl80211MeshconfParams::MeshconfPathRefreshTime,
            10 => Nl80211MeshconfParams::MeshconfMinDiscoveryTimeout,
            11 => Nl80211MeshconfParams::MeshconfHwmpActivePathTimeout,
            12 => Nl80211MeshconfParams::MeshconfHwmpPreqMinInterval,
            13 => Nl80211MeshconfParams::MeshconfHwmpNetDiamTrvsTime,
            14 => Nl80211MeshconfParams::MeshconfHwmpRootmode,
            15 => Nl80211MeshconfParams::MeshconfElementTtl,
            16 => Nl80211MeshconfParams::MeshconfHwmpRannInterval,
            17 => Nl80211MeshconfParams::MeshconfGateAnnouncements,
            18 => Nl80211MeshconfParams::MeshconfHwmpPerrMinInterval,
            19 => Nl80211MeshconfParams::MeshconfForwarding,
            20 => Nl80211MeshconfParams::MeshconfRssiThreshold,
            21 => Nl80211MeshconfParams::MeshconfSyncOffsetMaxNeighbor,
            22 => Nl80211MeshconfParams::MeshconfHtOpmode,
            23 => Nl80211MeshconfParams::MeshconfHwmpPathToRootTimeout,
            24 => Nl80211MeshconfParams::MeshconfHwmpRootInterval,
            25 => Nl80211MeshconfParams::MeshconfHwmpConfirmationInterval,
            26 => Nl80211MeshconfParams::MeshconfPowerMode,
            27 => Nl80211MeshconfParams::MeshconfAwakeWindow,
            28 => Nl80211MeshconfParams::MeshconfPlinkTimeout,
            29 => Nl80211MeshconfParams::MeshconfAttrAfterLast,
            _ => Nl80211MeshconfParams::UnrecognizedConst(code),
        }
    }
}

impl FromSpecImpl<u16> for Nl80211MeshconfParams {
    open spec fn obeys_from_spec() -> bool {
        true
    }

    open spec fn from_spec(code: u16) -> Self {
        Self::spec_from_code(code)
    }
}

impl From<Nl80211MeshconfParams> for u16 {
    fn from(value: Nl80211MeshconfParams) -> (code: u16) {
        match value {
            Nl80211MeshconfParams::MeshconfInvalid => 0,
            Nl80211MeshconfParams::MeshconfRetryTimeout => 1,
            Nl80211MeshconfParams::MeshconfConfirmTimeout => 2,
            Nl80211MeshconfParams::MeshconfHoldingTimeout => 3,
            Nl80211MeshconfParams::MeshconfMaxPeerLinks => 4,
            Nl80211MeshconfParams::MeshconfMaxRetries => 5,
            Nl80211MeshconfParams::MeshconfTtl => 6,
            Nl80211MeshconfParams::MeshconfAutoOpenPlinks => 7,
            Nl80211MeshconfParams::MeshconfHwmpMaxPreqRetries => 8,
            Nl80211MeshconfParams::MeshconfPathRefreshTime => 9,
            Nl80211MeshconfParams::MeshconfMinDiscoveryTimeout => 10,
            Nl80211MeshconfParams::MeshconfHwmpActivePathTimeout => 11,
            Nl80211MeshconfParams::MeshconfHwmpPreqMinInterval => 12,
            Nl80211MeshconfParams::MeshconfHwmpNetDiamTrvsTime => 13,
            Nl80211MeshconfParams::MeshconfHwmpRootmode => 14,
            Nl80211MeshconfParams::MeshconfElementTtl => 15,
            Nl80211MeshconfParams::MeshconfHwmpRannInterval => 16,
            Nl80211MeshconfParams::MeshconfGateAnnouncements => 17,
            Nl80211MeshconfParams::MeshconfHwmpPerrMinInterval => 18,
            Nl80211MeshconfParams::MeshconfForwarding => 19,
            Nl80211MeshconfParams::MeshconfRssiThreshold => 20,
            Nl80211MeshconfParams::MeshconfSyncOffsetMaxNeighbor => 21,
            Nl80211MeshconfParams::MeshconfHtOpmode => 22,
            Nl80211MeshconfParams::MeshconfHwmpPathToRootTimeout => 23,
            Nl80211MeshconfParams::MeshconfHwmpRootInterval => 24,
            Nl80211MeshconfParams::MeshconfHwmpConfirmationInterval => 25,
            Nl80211MeshconfParams::MeshconfPowerMode => 26,
            Nl80211MeshconfParams::MeshconfAwakeWindow => 27,
            Nl80211MeshconfParams::MeshconfPlinkTimeout => 28,
            Nl80211MeshconfParams::MeshconfAttrAfterLast => 29,
            Nl80211MeshconfParams::MeshconfAttrMax => 28,
            Nl80211MeshconfParams::UnrecognizedConst(code) => code,
        }
    }
}

impl FromSpecImpl<Nl80211MeshconfParams> for u16 {
    open spec fn obeys_from_spec() -> bool {
        true
    }

    open spec fn from_spec(value: Nl80211MeshconfParams) -> u16 {
        value.spec_code()
    }
}

/// The kernel's `nl80211_mesh_setup_params` enumeration.
#[derive(Clone, Copy, Debug, PartialEq, Eq, PartialOrd, Ord, Hash, Structural)]
pub enum Nl80211MeshSetupParams {
    MeshSetupInvalid,
    MeshSetupEnableVendorPathSel,
    MeshSetupEnableVendorMetric,
    MeshSetupIe,
    MeshSetupUserspaceAuth,
    MeshSetupUserspaceAmpe,
    MeshSetupEnableVendorSync,
    MeshSetupUserspaceMpm,
    MeshSetupAuthProtocol,
    MeshSetupAttrAfterLast,
    MeshSetupAttrMax,
    UnrecognizedConst(u16),
}

impl Nl80211MeshSetupParams {
    /// The value that a code stands for; where two names share a code, the
    /// first of them.
    pub open spec fn spec_from_code(code: u16) -> Self {
        match code {
            0 => Nl80211MeshSetupParams::MeshSetupInvalid,
            1 => Nl80211MeshSetupParams::MeshSetupEnableVendorPathSel,
            2 => Nl80211MeshSetupParams::MeshSetupEnableVendorMetric,
            3 => Nl80211MeshSetupParams::MeshSetupIe,
            4 => Nl80211MeshSetupParams::MeshSetupUserspaceAuth,
            5 => Nl80211MeshSetupParams::MeshSetupUserspaceAmpe,
            6 => Nl80211MeshSetupParams::MeshSetupEnableVendorSync,
            7 => Nl80211MeshSetupParams::MeshSetupUserspaceMpm,
            8 => Nl80211MeshSetupParams::MeshSetupAuthProtocol,
            9 => Nl80211MeshSetupParams::MeshSetupAttrAfterLast,
            _ => Nl80211MeshSetupParams::UnrecognizedConst(code),
        }
    }

    /// The code of a value.
    pub open spec fn spec_code(self) -> u16 {
        match self {
            Nl80211MeshSetupParams::MeshSetupInvalid => 0,
            Nl80211MeshSetupParams::MeshSetupEnableVendorPathSel => 1,
            Nl80211MeshSetupParams::MeshSetupEnableVendorMetric => 2,
            Nl80211MeshSetupParams::MeshSetupIe => 3,
            Nl80211MeshSetupParams::MeshSetupUserspaceAuth => 4,
            Nl80211MeshSetupParams::MeshSetupUserspaceAmpe => 5,
            Nl80211MeshSetupParams::MeshSetupEnableVendorSync => 6,
            Nl80211MeshSetupParams::MeshSetupUserspaceMpm => 7,
            Nl80211MeshSetupParams::MeshSetupAuthProtocol => 8,
            Nl80211MeshSetupParams::MeshSetupAttrAfterLast => 9,
            Nl80211MeshSetupParams::MeshSetupAttrMax => 8,
            Nl80211MeshSetupParams::UnrecognizedConst(code) => code,
        }
    }

    /// Whether the value is none that the vocabulary names.
    pub fn is_unrecognized(&self) -> (r: bool)
        ensures
            r == (*self is UnrecognizedConst),
    {
        match self {
            Nl80211MeshSetupParams::UnrecognizedConst(_) => true,
            _ => false,
        }
    }

    /// Every code is the code of the value it stands for.
    pub proof fn lemma_code_round_trip(code: u16)
        ensures
            Self::spec_from_code(code).spec_code() == code,
    {
    }
}

impl From<u16> for Nl80211MeshSetupParams {
    fn from(code: u16) -> (value: Self) {
        match code {
            0 => Nl80211MeshSetupParams::MeshSetupInvalid,
            1 => Nl80211MeshSetupParams::MeshSetupEnableVendorPathSel,
            2 => Nl80211MeshSetupParams::MeshSetupEnableVendorMetric,
            3 => Nl80211MeshSetupParams::MeshSetupIe,
            4 => Nl80211MeshSetupParams::MeshSetupUserspaceAuth,
            5 => Nl80211MeshSetupParams::MeshSetupUserspaceAmpe,
            6 => Nl80211MeshSetupParams::MeshSetupEnableVendorSync,
            7 => Nl80211MeshSetupParams::MeshSetupUserspaceMpm,
            8 => Nl80211MeshSetupParams::MeshSetupAuthProtocol,
            9 => Nl80211MeshSetupParams::MeshSetupAttrAfterLast,
            _ => Nl80211MeshSetupParams::UnrecognizedConst(code),
        }
    }
}

impl FromSpecImpl<u16> for Nl80211MeshSetupParams {
    open spec fn obeys_from_spec() -> bool {
        true
    }

    open spec fn from_spec(code: u16) -> Self {
        Self::spec_from_code(code)
    }
}

impl From<Nl80211MeshSetupParams> for u16 {
    fn from(value: Nl80211MeshSetupParams) -> (code: u16) {
        match value {
            Nl80211MeshSetupParams::MeshSetupInvalid => 0,
            Nl80211MeshSetupParams::MeshSetupEnableVendorPathSel => 1,
            Nl80211MeshSetupParams::MeshSetupEnableVendorMetric => 2,
            Nl80211MeshSetupParams::MeshSetupIe => 3,
            Nl80211MeshSetupParams::MeshSetupUserspaceAuth => 4,
            Nl80211MeshSetupParams::MeshSetupUserspaceAmpe => 5,
            Nl80211MeshSetupParams::MeshSetupEnableVendorSync => 6,
            Nl80211MeshSetupParams::MeshSetupUserspaceMpm => 7,
            Nl80211MeshSetupParams::MeshSetupAuthProtocol => 8,
            Nl80211MeshSetupParams::MeshSetupAttrAfterLast => 9,
            Nl80211MeshSetupParams::MeshSetupAttrMax => 8,
            Nl80211MeshSetupParams::UnrecognizedConst(code) => code,
        }
    }
}

impl FromSpecImpl<Nl80211MeshSetupParams> for u16 {
    open spec fn obeys_from_spec() -> bool {
        true
    }

    open spec fn from_spec(value: Nl80211MeshSetupParams) -> u16 {
        value.spec_code()
    }
}

/// The kernel's `nl80211_txq_attr` enumeration.
#[derive(Clone, Copy, Debug, PartialEq, Eq, PartialOrd, Ord, Hash, Structural)]
pub enum Nl80211TxqAttr {
    TxqAttrInvalid,
    TxqAttrAc,
    TxqAttrTxop,
    TxqAttrCwmin,
    TxqAttrCwmax,
    TxqAttrAifs,
    TxqAttrAfterLast,
    TxqAttrMax,
    UnrecognizedConst(u16),
}

impl Nl80211TxqAttr {
    /// The value that a code stands for; where two names share a code, the
    /// first of them.
    pub open spec fn spec_from_code(code: u16) -> Self {
        match code {
            0 => Nl80211TxqAttr::TxqAttrInvalid,
            1 => Nl80211TxqAttr::TxqAttrAc,
            2 => Nl80211TxqAttr::TxqAttrTxop,
            3 => Nl80211TxqAttr::TxqAttrCwmin,
            4 => Nl80211TxqAttr::TxqAttrCwmax,
            5 => Nl80211TxqAttr::TxqAttrAifs,
            6 => Nl80211TxqAttr::TxqAttrAfterLast,
            _ => Nl80211TxqAttr::UnrecognizedConst(code),
        }
    }

    /// The code of a value.
    pub open spec fn spec_code(self) -> u16 {
        match self {
            Nl80211TxqAttr::TxqAttrInvalid => 0,
            Nl80211TxqAttr::TxqAttrAc => 1,
            Nl80211TxqAttr::TxqAttrTxop => 2,
            Nl80211TxqAttr::TxqAttrCwmin => 3,
            Nl80211TxqAttr::TxqAttrCwmax => 4,
            Nl80211TxqAttr::TxqAttrAifs => 5,
            Nl80211TxqAttr::TxqAttrAfterLast => 6,
            Nl80211TxqAttr::TxqAttrMax => 5,
            Nl80211TxqAttr::UnrecognizedConst(code) => code,
        }
    }

    /// Whether the value is none that the vocabulary names.
    pub fn is_unrecognized(&self) -> (r: bool)
        ensures
            r == (*self is UnrecognizedConst),
    {
        match self {
            Nl80211TxqAttr::UnrecognizedConst(_) => true,
            _ => false,
        }
    }

    /// Every code is the code of the value it stands for.
    pub proof fn lemma_code_round_trip(code: u16)
        ensures
            Self::spec_from_code(code).spec_code() == code,
    {
    }
}

impl From<u16> for Nl80211TxqAttr {
    fn from(code: u16) -> (value: Self) {
        match code {
            0 => Nl80211TxqAttr::TxqAttrInvalid,
            1 => Nl80211TxqAttr::TxqAttrAc,
            2 => Nl80211TxqAttr::TxqAttrTxop,
            3 => Nl80211TxqAttr::TxqAttrCwmin,
            4 => Nl80211TxqAttr::TxqAttrCwmax,
            5 => Nl80211TxqAttr::TxqAttrAifs,
            6 => Nl80211TxqAttr::TxqAttrAfterLast,
            _ => Nl80211TxqAttr::UnrecognizedConst(code),
        }
    }
}

impl FromSpecImpl<u16> for Nl80211TxqAttr {
    open spec fn obeys_from_spec() -> bool {
        true
    }

    open spec fn from_spec(code: u16) -> Self {
        Self::spec_from_code(code)
    }
}

impl From<Nl80211TxqAttr> for u16 {
    fn from(value: Nl80211TxqAttr) -> (code: u16) {
        match value {
            Nl80211TxqAttr::TxqAttrInvalid => 0,
            Nl80211TxqAttr::TxqAttrAc => 1,
            Nl80211TxqAttr::TxqAttrTxop => 2,
            Nl80211TxqAttr::TxqAttrCwmin => 3,
            Nl80211TxqAttr::TxqAttrCwmax => 4,
            Nl80211TxqAttr::TxqAttrAifs => 5,
            Nl80211TxqAttr::TxqAttrAfterLast => 6,
            Nl80211TxqAttr::TxqAttrMax => 5,
            Nl80211TxqAttr::UnrecognizedConst(code) => code,
        }
    }
}

impl FromSpecImpl<Nl80211TxqAttr> for u16 {
    open spec fn obeys_from_spec() -> bool {
        true
    }

    open spec fn from_spec(value: Nl80211TxqAttr) -> u16 {
        value.spec_code()
    }
}

/// The kernel's `nl80211_ac` enumeration.
#[derive(Clone, Copy, Debug, PartialEq, Eq, PartialOrd, Ord, Hash, Structural)]
pub enum Nl80211Ac {
    AcVo,
    AcVi,
    AcBe,
    AcBk,
    NumAcs,
    UnrecognizedConst(u16),
}

impl Nl80211Ac {
    /// The value that a code stands for; where two names share a code, the
    /// first of them.
    pub open spec fn spec_from_code(code: u16) -> Self {
        match code {
            0 => Nl80211Ac::AcVo,
            1 => Nl80211Ac::AcVi,
            2 => Nl80211Ac::AcBe,
            3 => Nl80211Ac::AcBk,
            4 => Nl80211Ac::NumAcs,
            _ => Nl80211Ac::UnrecognizedConst(code),
        }
    }

    /// The code of a value.
    pub open spec fn spec_code(self) -> u16 {
        match self {
            Nl80211Ac::AcVo => 0,
            Nl80211Ac::AcVi => 1,
            Nl80211Ac::AcBe => 2,
            Nl80211Ac::AcBk => 3,
            Nl80211Ac::NumAcs => 4,
            Nl80211Ac::UnrecognizedConst(code) => code,
        }
    }

    /// Whether the value is none that the vocabulary names.
    pub fn is_unrecognized(&self) -> (r: bool)
        ensures
            r == (*self is UnrecognizedConst),
    {
        match self {
            Nl80211Ac::UnrecognizedConst(_) => true,
            _ => false,
        }
    }

    /// Every code is the code of the value it stands for.
    pub proof fn lemma_code_round_trip(code: u16)
        ensures
            Self::spec_from_code(code).spec_code() == code,
    {
    }
}

impl From<u16> for Nl80211Ac {
    fn from(code: u16) -> (value: Self) {
        match code {
            0 => Nl80211Ac::AcVo,
            1 => Nl80211Ac::AcVi,
            2 => Nl80211Ac::AcBe,
            3 => Nl80211Ac::AcBk,
            4 => Nl80211Ac::NumAcs,
            _ => Nl80211Ac::UnrecognizedConst(code),
        }
    }
}

impl FromSpecImpl<u16> for Nl80211Ac {
    open spec fn obeys_from_spec() -> bool {
        true
    }

    open spec fn from_spec(code: u16) -> Self {
        Self::spec_from_code(code)
    }
}

impl From<Nl80211Ac> for u16 {
    fn from(value: Nl80211Ac) -> (code: u16) {
        match value {
            Nl80211Ac::AcVo => 0,
            Nl80211Ac::AcVi => 1,
            Nl80211Ac::AcBe => 2,
            Nl80211Ac::AcBk => 3,
            Nl80211Ac::NumAcs => 4,
            Nl80211Ac::UnrecognizedConst(code) => code,
        }
    }
}

impl FromSpecImpl<Nl80211Ac> for u16 {
    open spec fn obeys_from_spec() -> bool {
        true
    }

    open spec fn from_spec(value: Nl80211Ac) -> u16 {
        value.spec_code()
    }
}

/// The kernel's `nl80211_channel_type` enumeration.
#[derive(Clone, Copy, Debug, PartialEq, Eq, PartialOrd, Ord, Hash, Structural)]
pub enum Nl80211ChannelType {
    ChanNoHt,
    ChanHt20,
    ChanHt40minus,
    ChanHt40plus,
    UnrecognizedConst(u16),
}

impl Nl80211ChannelType {
    /// The value that a code stands for; where two names share a code, the
    /// first of them.
    pub open spec fn spec_from_code(code: u16) -> Self {
        match code {
            0 => Nl80211ChannelType::ChanNoHt,
            1 => Nl80211ChannelType::ChanHt20,
            2 => Nl80211ChannelType::ChanHt40minus,
            3 => Nl80211ChannelType::ChanHt40plus,
            _ => Nl80211ChannelType::UnrecognizedConst(code),
        }
    }

    /// The code of a value.
    pub open spec fn spec_code(self) -> u16 {
        match self {
            Nl80211ChannelType::ChanNoHt => 0,
            Nl80211ChannelType::ChanHt20 => 1,
            Nl80211ChannelType::ChanHt40minus => 2,
            Nl80211ChannelType::ChanHt40plus => 3,
            Nl80211ChannelType::UnrecognizedConst(code) => code,
        }
    }

    /// Whether the value is none that the vocabulary names.
    pub fn is_unrecognized(&self) -> (r: bool)
        ensures
            r == (*self is UnrecognizedConst),
    {
        match self {
            Nl80211ChannelType::UnrecognizedConst(_) => true,
            _ => false,
        }
    }

    /// Every code is the code of the value it stands for.
    pub proof fn lemma_code_round_trip(code: u16)
        ensures
            Self::spec_from_code(code).spec_code() == code,
    {
    }
}

impl From<u16> for Nl80211ChannelType {
    fn from(code: u16) -> (value: Self) {
        match code {
            0 => Nl80211ChannelType::ChanNoHt,
            1 => Nl80211ChannelType::ChanHt20,
            2 => Nl80211ChannelType::ChanHt40minus,
            3 => Nl80211ChannelType::ChanHt40plus,
            _ => Nl80211ChannelType::UnrecognizedConst(code),
        }
    }
}

impl FromSpecImpl<u16> for Nl80211ChannelType {
    open spec fn obeys_from_spec() -> bool {
        true
    }

    open spec fn from_spec(code: u16) -> Self {
        Self::spec_from_code(code)
    }
}

impl From<Nl80211ChannelType> for u16 {
    fn from(value: Nl80211ChannelType) -> (code: u16) {
        match value {
            Nl80211ChannelType::ChanNoHt => 0,
            Nl80211ChannelType::ChanHt20 => 1,
            Nl80211ChannelType::ChanHt40minus => 2,
            Nl80211ChannelType::ChanHt40plus => 3,
            Nl80211ChannelType::UnrecognizedConst(code) => code,
        }
    }
}

impl FromSpecImpl<Nl80211ChannelType> for u16 {
    open spec fn obeys_from_spec() -> bool {
        true
    }

    open spec fn from_spec(value: Nl80211ChannelType) -> u16 {
        value.spec_code()
    }
}

/// The kernel's `nl80211_chan_width` enumeration.
#[derive(Clone, Copy, Debug, PartialEq, Eq, PartialOrd, Ord, Hash, Structural)]
pub enum Nl80211ChanWidth {
    ChanWidth20Noht,
    ChanWidth20,
    ChanWidth40,
    ChanWidth80,
    ChanWidth80p80,
    ChanWidth160,
    ChanWidth5,
    ChanWidth10,
    UnrecognizedConst(u16),
}

impl Nl80211ChanWidth {
    /// The value that a code stands for; where two names share a code, the
    /// first of them.
    pub open spec fn spec_from_code(code: u16) -> Self {
        match code {
            0 => Nl80211ChanWidth::ChanWidth20Noht,
            1 => Nl80211ChanWidth::ChanWidth20,
            2 => Nl80211ChanWidth::ChanWidth40,
            3 => Nl80211ChanWidth::ChanWidth80,
            4 => Nl80211ChanWidth::ChanWidth80p80,
            5 => Nl80211ChanWidth::ChanWidth160,
            6 => Nl80211ChanWidth::ChanWidth5,
            7 => Nl80211ChanWidth::ChanWidth10,
            _ => Nl80211ChanWidth::UnrecognizedConst(code),
        }
    }

    /// The code of a value.
    pub open spec fn spec_code(self) -> u16 {
        match self {
            Nl80211ChanWidth::ChanWidth20Noht => 0,
            Nl80211ChanWidth::ChanWidth20 => 1,
            Nl80211ChanWidth::ChanWidth40 => 2,
            Nl80211ChanWidth::ChanWidth80 => 3,
            Nl80211ChanWidth::ChanWidth80p80 => 4,
            Nl80211ChanWidth::ChanWidth160 => 5,
            Nl80211ChanWidth::ChanWidth5 => 6,
            Nl80211ChanWidth::ChanWidth10 => 7,
            Nl80211ChanWidth::UnrecognizedConst(code) => code,
        }
    }

    /// Whether the value is none that the vocabulary names.
    pub fn is_unrecognized(&self) -> (r: bool)
        ensures
            r == (*self is UnrecognizedConst),
    {
        match self {
            Nl80211ChanWidth::UnrecognizedConst(_) => true,
            _ => false,
        }
    }

    /// Every code is the code of the value it stands for.
    pub proof fn lemma_code_round_trip(code: u16)
        ensures
            Self::spec_from_code(code).spec_code() == code,
    {
    }
}

impl From<u16> for Nl80211ChanWidth {
    fn from(code: u16) -> (value: Self) {
        match code {
            0 => Nl80211ChanWidth::ChanWidth20Noht,
            1 => Nl80211ChanWidth::ChanWidth20,
            2 => Nl80211ChanWidth::ChanWidth40,
            3 => Nl80211ChanWidth::ChanWidth80,
            4 => Nl80211ChanWidth::ChanWidth80p80,
            5 => Nl80211ChanWidth::ChanWidth160,
            6 => Nl80211ChanWidth::ChanWidth5,
            7 => Nl80211ChanWidth::ChanWidth10,
            _ => Nl80211ChanWidth::UnrecognizedConst(code),
        }
    }
}

impl FromSpecImpl<u16> for Nl80211ChanWidth {
    open spec fn obeys_from_spec() -> bool {
        true
    }

    open spec fn from_spec(code: u16) -> Self {
        Self::spec_from_code(code)
    }
}

impl From<Nl80211ChanWidth> for u16 {
    fn from(value: Nl80211ChanWidth) -> (code: u16) {
        match value {
            Nl80211ChanWidth::ChanWidth20Noht => 0,
            Nl80211ChanWidth::ChanWidth20 => 1,
            Nl80211ChanWidth::ChanWidth40 => 2,
            Nl80211ChanWidth::ChanWidth80 => 3,
            Nl80211ChanWidth::ChanWidth80p80 => 4,
            Nl80211ChanWidth::ChanWidth160 => 5,
            Nl80211ChanWidth::ChanWidth5 => 6,
            Nl80211ChanWidth::ChanWidth10 => 7,
            Nl80211ChanWidth::UnrecognizedConst(code) => code,
        }
    }
}

impl FromSpecImpl<Nl80211ChanWidth> for u16 {
    open spec fn obeys_from_spec() -> bool {
        true
    }

    open spec fn from_spec(value: Nl80211ChanWidth) -> u16 {
        value.spec_code()
    }
}

/// The kernel's `nl80211_bss_scan_width` enumeration.
#[derive(Clone, Copy, Debug, PartialEq, Eq, PartialOrd, Ord, Hash, Structural)]
pub enum Nl80211BssScanWidth {
    BssChanWidth20,
    BssChanWidth10,
    BssChanWidth5,
    UnrecognizedConst(u16),
}

impl Nl80211BssScanWidth {
    /// The value that a code stands for; where two names share a code, the
    /// first of them.
    pub open spec fn spec_from_code(code: u16) -> Self {
        match code {
            0 => Nl80211BssScanWidth::BssChanWidth20,
            1 => Nl80211BssScanWidth::BssChanWidth10,
            2 => Nl80211BssScanWidth::BssChanWidth5,
            _ => Nl80211BssScanWidth::UnrecognizedConst(code),
        }
    }

    /// The code of a value.
    pub open spec fn spec_code(self) -> u16 {
        match self {
            Nl80211BssScanWidth::BssChanWidth20 => 0,
            Nl80211BssScanWidth::BssChanWidth10 => 1,
            Nl80211BssScanWidth::BssChanWidth5 => 2,
            Nl80211BssScanWidth::UnrecognizedConst(code) => code,
        }
    }

    /// Whether the value is none that the vocabulary names.
    pub fn is_unrecognized(&self) -> (r: bool)
        ensures
            r == (*self is UnrecognizedConst),
    {
        match self {
            Nl80211BssScanWidth::UnrecognizedConst(_) => true,
            _ => false,
        }
    }

    /// Every code is the code of the value it stands for.
    pub proof fn lemma_code_round_trip(code: u16)
        ensures
            Self::spec_from_code(code).spec_code() == code,
    {
    }
}

impl From<u16> for Nl80211BssScanWidth {
    fn from(code: u16) -> (value: Self) {
        match code {
            0 => Nl80211BssScanWidth::BssChanWidth20,
            1 => Nl80211BssScanWidth::BssChanWidth10,
            2 => Nl80211BssScanWidth::BssChanWidth5,
            _ => Nl80211BssScanWidth::UnrecognizedConst(code),
        }
    }
}

impl FromSpecImpl<u16> for Nl80211BssScanWidth {
    open spec fn obeys_from_spec() -> bool {
        true
    }

    open spec fn from_spec(code: u16) -> Self {
        Self::spec_from_code(code)
    }
}

impl From<Nl80211BssScanWidth> for u16 {
    fn from(value: Nl80211BssScanWidth) -> (code: u16) {
        match value {
            Nl80211BssScanWidth::BssChanWidth20 => 0,
            Nl80211BssScanWidth::BssChanWidth10 => 1,
            Nl80211BssScanWidth::BssChanWidth5 => 2,
            Nl80211BssScanWidth::UnrecognizedConst(code) => code,
        }
    }
}

impl FromSpecImpl<Nl80211BssScanWidth> for u16 {
    open spec fn obeys_from_spec() -> bool {
        true
    }

    open spec fn from_spec(value: Nl80211BssScanWidth) -> u16 {
        value.spec_code()
    }
}

/// The kernel's `nl80211_bss` enumeration.
#[derive(Clone, Copy, Debug, PartialEq, Eq, PartialOrd, Ord, Hash, Structural)]
pub enum Nl80211Bss {
    BssInvalid,
    BssBssid,
    BssFrequency,
    BssTsf,
    BssBeaconInterval,
    BssCapability,
    BssInformationElements,
    BssSignalMbm,
    BssSignalUnspec,
    BssStatus,
    BssSeenMsAgo,
    BssBeaconIes,
    BssChanWidth,
    BssBeaconTsf,
    BssPrespData,
    BssLastSeenBoottime,
    BssPad,
    BssParentTsf,
    BssParentBssid,
    BssAfterLast,
    BssMax,
    UnrecognizedConst(u16),
}

impl Nl80211Bss {
    /// The value that a code stands for; where two names share a code, the
    /// first of them.
    pub open spec fn spec_from_code(code: u16) -> Self {
        match code {
            0 => Nl80211Bss::BssInvalid,
            1 => Nl80211Bss::BssBssid,
            2 => Nl80211Bss::BssFrequency,
            3 => Nl80211Bss::BssTsf,
            4 => Nl80211Bss::BssBeaconInterval,
            5 => Nl80211Bss::BssCapability,
            6 => Nl80211Bss::BssInformationElements,
            7 => Nl80211Bss::BssSignalMbm,
            8 => Nl80211Bss::BssSignalUnspec,
            9 => Nl80211Bss::BssStatus,
            10 => Nl80211Bss::BssSeenMsAgo,
            11 => Nl80211Bss::BssBeaconIes,
            12 => Nl80211Bss::BssChanWidth,
            13 => Nl80211Bss::BssBeaconTsf,
            14 => Nl80211Bss::BssPrespData,
            15 => Nl80211Bss::BssLastSeenBoottime,
            16 => Nl80211Bss::BssPad,
            17 => Nl80211Bss::BssParentTsf,
            18 => Nl80211Bss::BssParentBssid,
            19 => Nl80211Bss::BssAfterLast,
            _ => Nl80211Bss::UnrecognizedConst(code),
        }
    }

    /// The code of a value.
    pub open spec fn spec_code(self) -> u16 {
        match self {
            Nl80211Bss::BssInvalid => 0,
            Nl80211Bss::BssBssid => 1,
            Nl80211Bss::BssFrequency => 2,
            Nl80211Bss::BssTsf => 3,
            Nl80211Bss::BssBeaconInterval => 4,
            Nl80211Bss::BssCapability => 5,
            Nl80211Bss::BssInformationElements => 6,
            Nl80211Bss::BssSignalMbm => 7,
            Nl80211Bss::BssSignalUnspec => 8,
            Nl80211Bss::BssStatus => 9,
            Nl80211Bss::BssSeenMsAgo => 10,
            Nl80211Bss::BssBeaconIes => 11,
            Nl80211Bss::BssChanWidth => 12,
            Nl80211Bss::BssBeaconTsf => 13,
            Nl80211Bss::BssPrespData => 14,
            Nl80211Bss::BssLastSeenBoottime => 15,
            Nl80211Bss::BssPad => 16,
            Nl80211Bss::BssParentTsf => 17,
            Nl80211Bss::BssParentBssid => 18,
            Nl80211Bss::BssAfterLast => 19,
            Nl80211Bss::BssMax => 18,
            Nl80211Bss::UnrecognizedConst(code) => code,
        }
    }

    /// Whether the value is none that the vocabulary names.
    pub fn is_unrecognized(&self) -> (r: bool)
        ensures
            r == (*self is UnrecognizedConst),
    {
        match self {
            Nl80211Bss::UnrecognizedConst(_) => true,
            _ => false,
        }
    }

    /// Every code is the code of the value it stands for.
    pub proof fn lemma_code_round_trip(code: u16)
        ensures
            Self::spec_from_code(code).spec_code() == code,
    {
    }
}

impl From<u16> for Nl80211Bss {
    fn from(code: u16) -> (value: Self) {
        match code {
            0 => Nl80211Bss::BssInvalid,
            1 => Nl80211Bss::BssBssid,
            2 => Nl80211Bss::BssFrequency,
            3 => Nl80211Bss::BssTsf,
            4 => Nl80211Bss::BssBeaconInterval,
            5 => Nl80211Bss::BssCapability,
            6 => Nl80211Bss::BssInformationElements,
            7 => Nl80211Bss::BssSignalMbm,
            8 => Nl80211Bss::BssSignalUnspec,
            9 => Nl80211Bss::BssStatus,
            10 => Nl80211Bss::BssSeenMsAgo,
            11 => Nl80211Bss::BssBeaconIes,
            12 => Nl80211Bss::BssChanWidth,
            13 => Nl80211Bss::BssBeaconTsf,
            14 => Nl80211Bss::BssPrespData,
            15 => Nl80211Bss::BssLastSeenBoottime,
            16 => Nl80211Bss::BssPad,
            17 => Nl80211Bss::BssParentTsf,
            18 => Nl80211Bss::BssParentBssid,
            19 => Nl80211Bss::BssAfterLast,
            _ => Nl80211Bss::UnrecognizedConst(code),
        }
    }
}

impl FromSpecImpl<u16> for Nl80211Bss {
    open spec fn obeys_from_spec() -> bool {
        true
    }

    open spec fn from_spec(code: u16) -> Self {
        Self::spec_from_code(code)
    }
}

impl From<Nl80211Bss> for u16 {
    fn from(value: Nl80211Bss) -> (code: u16) {
        match value {
            Nl80211Bss::BssInvalid => 0,
            Nl80211Bss::BssBssid => 1,
            Nl80211Bss::BssFrequency => 2,
            Nl80211Bss::BssTsf => 3,
            Nl80211Bss::BssBeaconInterval => 4,
            Nl80211Bss::BssCapability => 5,
            Nl80211Bss::BssInformationElements => 6,
            Nl80211Bss::BssSignalMbm => 7,
            Nl80211Bss::BssSignalUnspec => 8,
            Nl80211Bss::BssStatus => 9,
            Nl80211Bss::BssSeenMsAgo => 10,
            Nl80211Bss::BssBeaconIes => 11,
            Nl80211Bss::BssChanWidth => 12,
            Nl80211Bss::BssBeaconTsf => 13,
            Nl80211Bss::BssPrespData => 14,
            Nl80211Bss::BssLastSeenBoottime => 15,
            Nl80211Bss::BssPad => 16,
            Nl80211Bss::BssParentTsf => 17,
            Nl80211Bss::BssParentBssid => 18,
            Nl80211Bss::BssAfterLast => 19,
            Nl80211Bss::BssMax => 18,
            Nl80211Bss::UnrecognizedConst(code) => code,
        }
    }
}

impl FromSpecImpl<Nl80211Bss> for u16 {
    open spec fn obeys_from_spec() -> bool {
        true
    }

    open spec fn from_spec(value: Nl80211Bss) -> u16 {
        value.spec_code()
    }
}

/// The kernel's `nl80211_bss_status` enumeration.
#[derive(Clone, Copy, Debug, PartialEq, Eq, PartialOrd, Ord, Hash, Structural)]
pub enum Nl80211BssStatus {
    BssStatusAuthenticated,
    BssStatusAssociated,
    BssStatusIbssJoined,
    UnrecognizedConst(u16),
}

impl Nl80211BssStatus {
    /// The value that a code stands for; where two names share a code, the
    /// first of them.
    pub open spec fn spec_from_code(code: u16) -> Self {
        match code {
            0 => Nl80211BssStatus::BssStatusAuthenticated,
            1 => Nl80211BssStatus::BssStatusAssociated,
            2 => Nl80211BssStatus::BssStatusIbssJoined,
            _ => Nl80211BssStatus::UnrecognizedConst(code),
        }
    }

    /// The code of a value.
    pub open spec fn spec_code(self) -> u16 {
        match self {
            Nl80211BssStatus::BssStatusAuthenticated => 0,
            Nl80211BssStatus::BssStatusAssociated => 1,
            Nl80211BssStatus::BssStatusIbssJoined => 2,
            Nl80211BssStatus::UnrecognizedConst(code) => code,
        }
    }

    /// Whether the value is none that the vocabulary names.
    pub fn is_unrecognized(&self) -> (r: bool)
        ensures
            r == (*self is UnrecognizedConst),
    {
        match self {
            Nl80211BssStatus::UnrecognizedConst(_) => true,
            _ => false,
        }
    }

    /// Every code is the code of the value it stands for.
    pub proof fn lemma_code_round_trip(code: u16)
        ensures
            Self::spec_from_code(code).spec_code() == code,
    {
    }
}

impl From<u16> for Nl80211BssStatus {
    fn from(code: u16) -> (value: Self) {
        match code {
            0 => Nl80211BssStatus::BssStatusAuthenticated,
            1 => Nl80211BssStatus::BssStatusAssociated,
            2 => Nl80211BssStatus::BssStatusIbssJoined,
            _ => Nl80211BssStatus::UnrecognizedConst(code),
        }
    }
}

impl FromSpecImpl<u16> for Nl80211BssStatus {
    open spec fn obeys_from_spec() -> bool {
        true
    }

    open spec fn from_spec(code: u16) -> Self {
        Self::spec_from_code(code)
    }
}

impl From<Nl80211BssStatus> for u16 {
    fn from(value: Nl80211BssStatus) -> (code: u16) {
        match value {
            Nl80211BssStatus::BssStatusAuthenticated => 0,
            Nl80211BssStatus::BssStatusAssociated => 1,
            Nl80211BssStatus::BssStatusIbssJoined => 2,
            Nl80211BssStatus::UnrecognizedConst(code) => code,
        }
    }
}

impl FromSpecImpl<Nl80211BssStatus> for u16 {
    open spec fn obeys_from_spec() -> bool {
        true
    }

    open spec fn from_spec(value: Nl80211BssStatus) -> u16 {
        value.spec_code()
    }
}

/// The kernel's `nl80211_auth_type` enumeration.
#[derive(Clone, Copy, Debug, PartialEq, Eq, PartialOrd, Ord, Hash, Structural)]
pub enum Nl80211AuthType {
    AuthtypeOpenSystem,
    AuthtypeSharedKey,
    AuthtypeFt,
    AuthtypeNetworkEap,
    AuthtypeSae,
    AuthtypeNum,
    AuthtypeMax,
    AuthtypeAutomatic,
    UnrecognizedConst(u16),
}

impl Nl80211AuthType {
    /// The value that a code stands for; where two names share a code, the
    /// first of them.
    pub open spec fn spec_from_code(code: u16) -> Self {
        match code {
            0 => Nl80211AuthType::AuthtypeOpenSystem,
            1 => Nl80211AuthType::AuthtypeSharedKey,
            2 => Nl80211AuthType::AuthtypeFt,
            3 => Nl80211AuthType::AuthtypeNetworkEap,
            4 => Nl80211AuthType::AuthtypeSae,
            5 => Nl80211AuthType::AuthtypeNum,
            _ => Nl80211AuthType::UnrecognizedConst(code),
        }
    }

    /// The code of a value.
    pub open spec fn spec_code(self) -> u16 {
        match self {
            Nl80211AuthType::AuthtypeOpenSystem => 0,
            Nl80211AuthType::AuthtypeSharedKey => 1,
            Nl80211AuthType::AuthtypeFt => 2,
            Nl80211AuthType::AuthtypeNetworkEap => 3,
            Nl80211AuthType::AuthtypeSae => 4,
            Nl80211AuthType::AuthtypeNum => 5,
            Nl80211AuthType::AuthtypeMax => 4,
            Nl80211AuthType::AuthtypeAutomatic => 5,
            Nl80211AuthType::UnrecognizedConst(code) => code,
        }
    }

    /// Whether the value is none that the vocabulary names.
    pub fn is_unrecognized(&self) -> (r: bool)
        ensures
            r == (*self is UnrecognizedConst),
    {
        match self {
            Nl80211AuthType::UnrecognizedConst(_) => true,
            _ => false,
        }
    }

    /// Every code is the code of the value it stands for.
    pub proof fn lemma_code_round_trip(code: u16)
        ensures
            Self::spec_from_code(code).spec_code() == code,
    {
    }
}

impl From<u16> for Nl80211AuthType {
    fn from(code: u16) -> (value: Self) {
        match code {
            0 => Nl80211AuthType::AuthtypeOpenSystem,
            1 => Nl80211AuthType::AuthtypeSharedKey,
            2 => Nl80211AuthType::AuthtypeFt,
            3 => Nl80211AuthType::AuthtypeNetworkEap,
            4 => Nl80211AuthType::AuthtypeSae,
            5 => Nl80211AuthType::AuthtypeNum,
            _ => Nl80211AuthType::UnrecognizedConst(code),
        }
    }
}

impl FromSpecImpl<u16> for Nl80211AuthType {
    open spec fn obeys_from_spec() -> bool {
        true
    }

    open spec fn from_spec(code: u16) -> Self {
        Self::spec_from_code(code)
    }
}

impl From<Nl80211AuthType> for u16 {
    fn from(value: Nl80211AuthType) -> (code: u16) {
        match value {
            Nl80211AuthType::AuthtypeOpenSystem => 0,
            Nl80211AuthType::AuthtypeSharedKey => 1,
            Nl80211AuthType::AuthtypeFt => 2,
            Nl80211AuthType::AuthtypeNetworkEap => 3,
            Nl80211AuthType::AuthtypeSae => 4,
            Nl80211AuthType::AuthtypeNum => 5,
            Nl80211AuthType::AuthtypeMax => 4,
            Nl80211AuthType::AuthtypeAutomatic => 5,
            Nl80211AuthType::UnrecognizedConst(code) => code,
        }
    }
}

impl FromSpecImpl<Nl80211AuthType> for u16 {
    open spec fn obeys_from_spec() -> bool {
        true
    }

    open spec fn from_spec(value: Nl80211AuthType) -> u16 {
        value.spec_code()
    }
}

/// The kernel's `nl80211_key_type` enumeration.
#[derive(Clone, Copy, Debug, PartialEq, Eq, PartialOrd, Ord, Hash, Structural)]
pub enum Nl80211KeyType {
    KeytypeGroup,
    KeytypePairwise,
    KeytypePeerkey,
    NumKeytypes,
    UnrecognizedConst(u16),
}

impl Nl80211KeyType {
    /// The value that a code stands for; where two names share a code, the
    /// first of them.
    pub open spec fn spec_from_code(code: u16) -> Self {
        match code {
            0 => Nl80211KeyType::KeytypeGroup,
            1 => Nl80211KeyType::KeytypePairwise,
            2 => Nl80211KeyType::KeytypePeerkey,
            3 => Nl80211KeyType::NumKeytypes,
            _ => Nl80211KeyType::UnrecognizedConst(code),
        }
    }

    /// The code of a value.
    pub open spec fn spec_code(self) -> u16 {
        match self {
            Nl80211KeyType::KeytypeGroup => 0,
            Nl80211KeyType::KeytypePairwise => 1,
            Nl80211KeyType::KeytypePeerkey => 2,
            Nl80211KeyType::NumKeytypes => 3,
            Nl80211KeyType::UnrecognizedConst(code) => code,
        }
    }

    /// Whether the value is none that the vocabulary names.
    pub fn is_unrecognized(&self) -> (r: bool)
        ensures
            r == (*self is UnrecognizedConst),
    {
        match self {
            Nl80211KeyType::UnrecognizedConst(_) => true,
            _ => false,
        }
    }

    /// Every code is the code of the value it stands for.
    pub proof fn lemma_code_round_trip(code: u16)
        ensures
            Self::spec_from_code(code).spec_code() == code,
    {
    }
}

impl From<u16> for Nl80211KeyType {
    fn from(code: u16) -> (value: Self) {
        match code {
            0 => Nl80211KeyType::KeytypeGroup,
            1 => Nl80211KeyType::KeytypePairwise,
            2 => Nl80211KeyType::KeytypePeerkey,
            3 => Nl80211KeyType::NumKeytypes,
            _ => Nl80211KeyType::UnrecognizedConst(code),
        }
    }
}

impl FromSpecImpl<u16> for Nl80211KeyType {
    open spec fn obeys_from_spec() -> bool {
        true
    }

    open spec fn from_spec(code: u16) -> Self {
        Self::spec_from_code(code)
    }
}

impl From<Nl80211KeyType> for u16 {
    fn from(value: Nl80211KeyType) -> (code: u16) {
        match value {
            Nl80211KeyType::KeytypeGroup => 0,
            Nl80211KeyType::KeytypePairwise => 1,
            Nl80211KeyType::KeytypePeerkey => 2,
            Nl80211KeyType::NumKeytypes => 3,
            Nl80211KeyType::UnrecognizedConst(code) => code,
        }
    }
}

impl FromSpecImpl<Nl80211KeyType> for u16 {
    open spec fn obeys_from_spec() -> bool {
        true
    }

    open spec fn from_spec(value: Nl80211KeyType) -> u16 {
        value.spec_code()
    }
}

/// The kernel's `nl80211_mfp` enumeration.
#[derive(Clone, Copy, Debug, PartialEq, Eq, PartialOrd, Ord, Hash, Structural)]
pub enum Nl80211Mfp {
    MfpNo,
    MfpRequired,
    UnrecognizedConst(u16),
}

impl Nl80211Mfp {
    /// The value that a code stands for; where two names share a code, the
    /// first of them.
    pub open spec fn spec_from_code(code: u16) -> Self {
        match code {
            0 => Nl80211Mfp::MfpNo,
            1 => Nl80211Mfp::MfpRequired,
            _ => Nl80211Mfp::UnrecognizedConst(code),
        }
    }

    /// The code of a value.
    pub open spec fn spec_code(self) -> u16 {
        match self {
            Nl80211Mfp::MfpNo => 0,
            Nl80211Mfp::MfpRequired => 1,
            Nl80211Mfp::UnrecognizedConst(code) => code,
        }
    }

    /// Whether the value is none that the vocabulary names.
    pub fn is_unrecognized(&self) -> (r: bool)
        ensures
            r == (*self is UnrecognizedConst),
    {
        match self {
            Nl80211Mfp::UnrecognizedConst(_) => true,
            _ => false,
        }
    }

    /// Every code is the code of the value it stands for.
    pub proof fn lemma_code_round_trip(code: u16)
        ensures
            Self::spec_from_code(code).spec_code() == code,
    {
    }
}

impl From<u16> for Nl80211Mfp {
    fn from(code: u16) -> (value: Self) {
        match code {
            0 => Nl80211Mfp::MfpNo,
            1 => Nl80211Mfp::MfpRequired,
            _ => Nl80211Mfp::UnrecognizedConst(code),
        }
    }
}

impl FromSpecImpl<u16> for Nl80211Mfp {
    open spec fn obeys_from_spec() -> bool {
        true
    }

    open spec fn from_spec(code: u16) -> Self {
        Self::spec_from_code(code)
    }
}

impl From<Nl80211Mfp> for u16 {
    fn from(value: Nl80211Mfp) -> (code: u16) {
        match value {
            Nl80211Mfp::MfpNo => 0,
            Nl80211Mfp::MfpRequired => 1,
            Nl80211Mfp::UnrecognizedConst(code) => code,
        }
    }
}

impl FromSpecImpl<Nl80211Mfp> for u16 {
    open spec fn obeys_from_spec() -> bool {
        true
    }

    open spec fn from_spec(value: Nl80211Mfp) -> u16 {
        value.spec_code()
    }
}

/// The kernel's `nl80211_wpa_versions` enumeration.
#[derive(Clone, Copy, Debug, PartialEq, Eq, PartialOrd, Ord, Hash, Structural)]
pub enum Nl80211WpaVersions {
    WpaVersion1,
    WpaVersion2,
    UnrecognizedConst(u16),
}

impl Nl80211WpaVersions {
    /// The value that a code stands for; where two names share a code, the
    /// first of them.
    pub open spec fn spec_from_code(code: u16) -> Self {
        match code {
            1 => Nl80211WpaVersions::WpaVersion1,
            2 => Nl80211WpaVersions::WpaVersion2,
            _ => Nl80211WpaVersions::UnrecognizedConst(code),
        }
    }

    /// The code of a value.
    pub open spec fn spec_code(self) -> u16 {
        match self {
            Nl80211WpaVersions::WpaVersion1 => 1,
            Nl80211WpaVersions::WpaVersion2 => 2,
            Nl80211WpaVersions::UnrecognizedConst(code) => code,
        }
    }

    /// Whether the value is none that the vocabulary names.
    pub fn is_unrecognized(&self) -> (r: bool)
        ensures
            r == (*self is UnrecognizedConst),
    {
        match self {
            Nl80211WpaVersions::UnrecognizedConst(_) => true,
            _ => false,
        }
    }

    /// Every code is the code of the value it stands for.
    pub proof fn lemma_code_round_trip(code: u16)
        ensures
            Self::spec_from_code(code).spec_code() == code,
    {
    }
}

impl From<u16> for Nl80211WpaVersions {
    fn from(code: u16) -> (value: Self) {
        match code {
            1 => Nl80211WpaVersions::WpaVersion1,
            2 => Nl80211WpaVersions::WpaVersion2,
            _ => Nl80211WpaVersions::UnrecognizedConst(code),
        }
    }
}

impl FromSpecImpl<u16> for Nl80211WpaVersions {
    open spec fn obeys_from_spec() -> bool {
        true
    }

    open spec fn from_spec(code: u16) -> Self {
        Self::spec_from_code(code)
    }
}

impl From<Nl80211WpaVersions> for u16 {
    fn from(value: Nl80211WpaVersions) -> (code: u16) {
        match value {
            Nl80211WpaVersions::WpaVersion1 => 1,
            Nl80211WpaVersions::WpaVersion2 => 2,
            Nl80211WpaVersions::UnrecognizedConst(code) => code,
        }
    }
}

impl FromSpecImpl<Nl80211WpaVersions> for u16 {
    open spec fn obeys_from_spec() -> bool {
        true
    }

    open spec fn from_spec(value: Nl80211WpaVersions) -> u16 {
        value.spec_code()
    }
}

/// The kernel's `nl80211_key_default_types` enumeration.
#[derive(Clone, Copy, Debug, PartialEq, Eq, PartialOrd, Ord, Hash, Structural)]
pub enum Nl80211KeyDefaultTypes {
    KeyDefaultTypeInvalid,
    KeyDefaultTypeUnicast,
    KeyDefaultTypeMulticast,
    NumKeyDefaultTypes,
    UnrecognizedConst(u16),
}

impl Nl80211KeyDefaultTypes {
    /// The value that a code stands for; where two names share a code, the
    /// first of them.
    pub open spec fn spec_from_code(code: u16) -> Self {
        match code {
            0 => Nl80211KeyDefaultTypes::KeyDefaultTypeInvalid,
            1 => Nl80211KeyDefaultTypes::KeyDefaultTypeUnicast,
            2 => Nl80211KeyDefaultTypes::KeyDefaultTypeMulticast,
            3 => Nl80211KeyDefaultTypes::NumKeyDefaultTypes,
            _ => Nl80211KeyDefaultTypes::UnrecognizedConst(code),
        }
    }

    /// The code of a value.
    pub open spec fn spec_code(self) -> u16 {
        match self {
            Nl80211KeyDefaultTypes::KeyDefaultTypeInvalid => 0,
            Nl80211KeyDefaultTypes::KeyDefaultTypeUnicast => 1,
            Nl80211KeyDefaultTypes::KeyDefaultTypeMulticast => 2,
            Nl80211KeyDefaultTypes::NumKeyDefaultTypes => 3,
            Nl80211KeyDefaultTypes::UnrecognizedConst(code) => code,
        }
    }

    /// Whether the value is none that the vocabulary names.
    pub fn is_unrecognized(&self) -> (r: bool)
        ensures
            r == (*self is UnrecognizedConst),
    {
        match self {
            Nl80211KeyDefaultTypes::UnrecognizedConst(_) => true,
            _ => false,
        }
    }

    /// Every code is the code of the value it stands for.
    pub proof fn lemma_code_round_trip(code: u16)
        ensures
            Self::spec_from_code(code).spec_code() == code,
    {
    }
}

impl From<u16> for Nl80211KeyDefaultTypes {
    fn from(code: u16) -> (value: Self) {
        match code {
            0 => Nl80211KeyDefaultTypes::KeyDefaultTypeInvalid,
            1 => Nl80211KeyDefaultTypes::KeyDefaultTypeUnicast,
            2 => Nl80211KeyDefaultTypes::KeyDefaultTypeMulticast,
            3 => Nl80211KeyDefaultTypes::NumKeyDefaultTypes,
            _ => Nl80211KeyDefaultTypes::UnrecognizedConst(code),
        }
    }
}

impl FromSpecImpl<u16> for Nl80211KeyDefaultTypes {
    open spec fn obeys_from_spec() -> bool {
        true
    }

    open spec fn from_spec(code: u16) -> Self {
        Self::spec_from_code(code)
    }
}

impl From<Nl80211KeyDefaultTypes> for u16 {
    fn from(value: Nl80211KeyDefaultTypes) -> (code: u16) {
        match value {
            Nl80211KeyDefaultTypes::KeyDefaultTypeInvalid => 0,
            Nl80211KeyDefaultTypes::KeyDefaultTypeUnicast => 1,
            Nl80211KeyDefaultTypes::KeyDefaultTypeMulticast => 2,
            Nl80211KeyDefaultTypes::NumKeyDefaultTypes => 3,
            Nl80211KeyDefaultTypes::UnrecognizedConst(code) => code,
        }
    }
}

impl FromSpecImpl<Nl80211KeyDefaultTypes> for u16 {
    open spec fn obeys_from_spec() -> bool {
        true
    }

    open spec fn from_spec(value: Nl80211KeyDefaultTypes) -> u16 {
        value.spec_code()
    }
}

/// The kernel's `nl80211_key_attributes` enumeration.
#[derive(Clone, Copy, Debug, PartialEq, Eq, PartialOrd, Ord, Hash, Structural)]
pub enum Nl80211KeyAttributes {
    KeyInvalid,
    KeyData,
    KeyIdx,
    KeyCipher,
    KeySeq,
    KeyDefault,
    KeyDefaultMgmt,
    KeyType,
    KeyDefaultTypes,
    KeyAfterLast,
    KeyMax,
    UnrecognizedConst(u16),
}

impl Nl80211KeyAttributes {
    /// The value that a code stands for; where two names share a code, the
    /// first of them.
    pub open spec fn spec_from_code(code: u16) -> Self {
        match code {
            0 => Nl80211KeyAttributes::KeyInvalid,
            1 => Nl80211KeyAttributes::KeyData,
            2 => Nl80211KeyAttributes::KeyIdx,
            3 => Nl80211KeyAttributes::KeyCipher,
            4 => Nl80211KeyAttributes::KeySeq,
            5 => Nl80211KeyAttributes::KeyDefault,
            6 => Nl80211KeyAttributes::KeyDefaultMgmt,
            7 => Nl80211KeyAttributes::KeyType,
            8 => Nl80211KeyAttributes::KeyDefaultTypes,
            9 => Nl80211KeyAttributes::KeyAfterLast,
            _ => Nl80211KeyAttributes::UnrecognizedConst(code),
        }
    }

    /// The code of a value.
    pub open spec fn spec_code(self) -> u16 {
        match self {
            Nl80211KeyAttributes::KeyInvalid => 0,
            Nl80211KeyAttributes::KeyData => 1,
            Nl80211KeyAttributes::KeyIdx => 2,
            Nl80211KeyAttributes::KeyCipher => 3,
            Nl80211KeyAttributes::KeySeq => 4,
            Nl80211KeyAttributes::KeyDefault => 5,
            Nl80211KeyAttributes::KeyDefaultMgmt => 6,
            Nl80211KeyAttributes::KeyType => 7,
            Nl80211KeyAttributes::KeyDefaultTypes => 8,
            Nl80211KeyAttributes::KeyAfterLast => 9,
            Nl80211KeyAttributes::KeyMax => 8,
            Nl80211KeyAttributes::UnrecognizedConst(code) => code,
        }
    }

    /// Whether the value is none that the vocabulary names.
    pub fn is_unrecognized(&self) -> (r: bool)
        ensures
            r == (*self is UnrecognizedConst),
    {
        match self {
            Nl80211KeyAttributes::UnrecognizedConst(_) => true,
            _ => false,
        }
    }

    /// Every code is the code of the value it stands for.
    pub proof fn lemma_code_round_trip(code: u16)
        ensures
            Self::spec_from_code(code).spec_code() == code,
    {
    }
}

impl From<u16> for Nl80211KeyAttributes {
    fn from(code: u16) -> (value: Self) {
        match code {
            0 => Nl80211KeyAttributes::KeyInvalid,
            1 => Nl80211KeyAttributes::KeyData,
            2 => Nl80211KeyAttributes::KeyIdx,
            3 => Nl80211KeyAttributes::KeyCipher,
            4 => Nl80211KeyAttributes::KeySeq,
            5 => Nl80211KeyAttributes::KeyDefault,
            6 => Nl80211KeyAttributes::KeyDefaultMgmt,
            7 => Nl80211KeyAttributes::KeyType,
            8 => Nl80211KeyAttributes::KeyDefaultTypes,
            9 => Nl80211KeyAttributes::KeyAfterLast,
            _ => Nl80211KeyAttributes::UnrecognizedConst(code),
        }
    }
}

impl FromSpecImpl<u16> for Nl80211KeyAttributes {
    open spec fn obeys_from_spec() -> bool {
        true
    }

    open spec fn from_spec(code: u16) -> Self {
        Self::spec_from_code(code)
    }
}

impl From<Nl80211KeyAttributes> for u16 {
    fn from(value: Nl80211KeyAttributes) -> (code: u16) {
        match value {
            Nl80211KeyAttributes::KeyInvalid => 0,
            Nl80211KeyAttributes::KeyData => 1,
            Nl80211KeyAttributes::KeyIdx => 2,
            Nl80211KeyAttributes::KeyCipher => 3,
            Nl80211KeyAttributes::KeySeq => 4,
            Nl80211KeyAttributes::KeyDefault => 5,
            Nl80211KeyAttributes::KeyDefaultMgmt => 6,
            Nl80211KeyAttributes::KeyType => 7,
            Nl80211KeyAttributes::KeyDefaultTypes => 8,
            Nl80211KeyAttributes::KeyAfterLast => 9,
            Nl80211KeyAttributes::KeyMax => 8,
            Nl80211KeyAttributes::UnrecognizedConst(code) => code,
        }
    }
}

impl FromSpecImpl<Nl80211KeyAttributes> for u16 {
    open spec fn obeys_from_spec() -> bool {
        true
    }

    open spec fn from_spec(value: Nl80211KeyAttributes) -> u16 {
        value.spec_code()
    }
}

/// The kernel's `nl80211_tx_rate_attributes` enumeration.
#[derive(Clone, Copy, Debug, PartialEq, Eq, PartialOrd, Ord, Hash, Structural)]
pub enum Nl80211TxRateAttributes {
    TxrateInvalid,
    TxrateLegacy,
    TxrateHt,
    TxrateVht,
    TxrateGi,
    TxrateAfterLast,
    TxrateMax,
    UnrecognizedConst(u16),
}

impl Nl80211TxRateAttributes {
    /// The value that a code stands for; where two names share a code, the
    /// first of them.
    pub open spec fn spec_from_code(code: u16) -> Self {
        match code {
            0 => Nl80211TxRateAttributes::TxrateInvalid,
            1 => Nl80211TxRateAttributes::TxrateLegacy,
            2 => Nl80211TxRateAttributes::TxrateHt,
            3 => Nl80211TxRateAttributes::TxrateVht,
            4 => Nl80211TxRateAttributes::TxrateGi,
            5 => Nl80211TxRateAttributes::TxrateAfterLast,
            _ => Nl80211TxRateAttributes::UnrecognizedConst(code),
        }
    }

    /// The code of a value.
    pub open spec fn spec_code(self) -> u16 {
        match self {
            Nl80211TxRateAttributes::TxrateInvalid => 0,
            Nl80211TxRateAttributes::TxrateLegacy => 1,
            Nl80211TxRateAttributes::TxrateHt => 2,
            Nl80211TxRateAttributes::TxrateVht => 3,
            Nl80211TxRateAttributes::TxrateGi => 4,
            Nl80211TxRateAttributes::TxrateAfterLast => 5,
            Nl80211TxRateAttributes::TxrateMax => 4,
            Nl80211TxRateAttributes::UnrecognizedConst(code) => code,
        }
    }

    /// Whether the value is none that the vocabulary names.
    pub fn is_unrecognized(&self) -> (r: bool)
        ensures
            r == (*self is UnrecognizedConst),
    {
        match self {
            Nl80211TxRateAttributes::UnrecognizedConst(_) => true,
            _ => false,
        }
    }

    /// Every code is the code of the value it stands for.
    pub proof fn lemma_code_round_trip(code: u16)
        ensures
            Self::spec_from_code(code).spec_code() == code,
    {
    }
}

impl From<u16> for Nl80211TxRateAttributes {
    fn from(code: u16) -> (value: Self) {
        match code {
            0 => Nl80211TxRateAttributes::TxrateInvalid,
            1 => Nl80211TxRateAttributes::TxrateLegacy,
            2 => Nl80211TxRateAttributes::TxrateHt,
            3 => Nl80211TxRateAttributes::TxrateVht,
            4 => Nl80211TxRateAttributes::TxrateGi,
            5 => Nl80211TxRateAttributes::TxrateAfterLast,
            _ => Nl80211TxRateAttributes::UnrecognizedConst(code),
        }
    }
}

impl FromSpecImpl<u16> for Nl80211TxRateAttributes {
    open spec fn obeys_from_spec() -> bool {
        true
    }

    open spec fn from_spec(code: u16) -> Self {
        Self::spec_from_code(code)
    }
}

impl From<Nl80211TxRateAttributes> for u16 {
    fn from(value: Nl80211TxRateAttributes) -> (code: u16) {
        match value {
            Nl80211TxRateAttributes::TxrateInvalid => 0,
            Nl80211TxRateAttributes::TxrateLegacy => 1,
            Nl80211TxRateAttributes::TxrateHt => 2,
            Nl80211TxRateAttributes::TxrateVht => 3,
            Nl80211TxRateAttributes::TxrateGi => 4,
            Nl80211TxRateAttributes::TxrateAfterLast => 5,
            Nl80211TxRateAttributes::TxrateMax => 4,
            Nl80211TxRateAttributes::UnrecognizedConst(code) => code,
        }
    }
}

impl FromSpecImpl<Nl80211TxRateAttributes> for u16 {
    open spec fn obeys_from_spec() -> bool {
        true
    }

    open spec fn from_spec(value: Nl80211TxRateAttributes) -> u16 {
        value.spec_code()
    }
}

/// The kernel's `nl80211_txrate_gi` enumeration.
#[derive(Clone, Copy, Debug, PartialEq, Eq, PartialOrd, Ord, Hash, Structural)]
pub enum Nl80211TxrateGi {
    TxrateDefaultGi,
    TxrateForceSgi,
    TxrateForceLgi,
    UnrecognizedConst(u16),
}

impl Nl80211TxrateGi {
    /// The value that a code stands for; where two names share a code, the
    /// first of them.
    pub open spec fn spec_from_code(code: u16) -> Self {
        match code {
            0 => Nl80211TxrateGi::TxrateDefaultGi,
            1 => Nl80211TxrateGi::TxrateForceSgi,
            2 => Nl80211TxrateGi::TxrateForceLgi,
            _ => Nl80211TxrateGi::UnrecognizedConst(code),
        }
    }

    /// The code of a value.
    pub open spec fn spec_code(self) -> u16 {
        match self {
            Nl80211TxrateGi::TxrateDefaultGi => 0,
            Nl80211TxrateGi::TxrateForceSgi => 1,
            Nl80211TxrateGi::TxrateForceLgi => 2,
            Nl80211TxrateGi::UnrecognizedConst(code) => code,
        }
    }

    /// Whether the value is none that the vocabulary names.
    pub fn is_unrecognized(&self) -> (r: bool)
        ensures
            r == (*self is UnrecognizedConst),
    {
        match self {
            Nl80211TxrateGi::UnrecognizedConst(_) => true,
            _ => false,
        }
    }

    /// Every code is the code of the value it stands for.
    pub proof fn lemma_code_round_trip(code: u16)
        ensures
            Self::spec_from_code(code).spec_code() == code,
    {
    }
}

impl From<u16> for Nl80211TxrateGi {
    fn from(code: u16) -> (value: Self) {
        match code {
            0 => Nl80211TxrateGi::TxrateDefaultGi,
            1 => Nl80211TxrateGi::TxrateForceSgi,
            2 => Nl80211TxrateGi::TxrateForceLgi,
            _ => Nl80211TxrateGi::UnrecognizedConst(code),
        }
    }
}

impl FromSpecImpl<u16> for Nl80211TxrateGi {
    open spec fn obeys_from_spec() -> bool {
        true
    }

    open spec fn from_spec(code: u16) -> Self {
        Self::spec_from_code(code)
    }
}

impl From<Nl80211TxrateGi> for u16 {
    fn from(value: Nl80211TxrateGi) -> (code: u16) {
        match value {
            Nl80211TxrateGi::TxrateDefaultGi => 0,
            Nl80211TxrateGi::TxrateForceSgi => 1,
            Nl80211TxrateGi::TxrateForceLgi => 2,
            Nl80211TxrateGi::UnrecognizedConst(code) => code,
        }
    }
}

impl FromSpecImpl<Nl80211TxrateGi> for u16 {
    open spec fn obeys_from_spec() -> bool {
        true
    }

    open spec fn from_spec(value: Nl80211TxrateGi) -> u16 {
        value.spec_code()
    }
}

/// The kernel's `nl80211_band` enumeration.
#[derive(Clone, Copy, Debug, PartialEq, Eq, PartialOrd, Ord, Hash, Structural)]
pub enum Nl80211Bandc {
    Band2ghz,
    Band5ghz,
    Band60ghz,
    NumBands,
    UnrecognizedConst(u16),
}

impl Nl80211Bandc {
    /// The value that a code stands for; where two names share a code, the
    /// first of them.
    pub open spec fn spec_from_code(code: u16) -> Self {
        match code {
            0 => Nl80211Bandc::Band2ghz,
            1 => Nl80211Bandc::Band5ghz,
            2 => Nl80211Bandc::Band60ghz,
            3 => Nl80211Bandc::NumBands,
            _ => Nl80211Bandc::UnrecognizedConst(code),
        }
    }

    /// The code of a value.
    pub open spec fn spec_code(self) -> u16 {
        match self {
            Nl80211Bandc::Band2ghz => 0,
            Nl80211Bandc::Band5ghz => 1,
            Nl80211Bandc::Band60ghz => 2,
            Nl80211Bandc::NumBands => 3,
            Nl80211Bandc::UnrecognizedConst(code) => code,
        }
    }

    /// Whether the value is none that the vocabulary names.
    pub fn is_unrecognized(&self) -> (r: bool)
        ensures
            r == (*self is UnrecognizedConst),
    {
        match self {
            Nl80211Bandc::UnrecognizedConst(_) => true,
            _ => false,
        }
    }

    /// Every code is the code of the value it stands for.
    pub proof fn lemma_code_round_trip(code: u16)
        ensures
            Self::spec_from_code(code).spec_code() == code,
    {
    }
}

impl From<u16> for Nl80211Bandc {
    fn from(code: u16) -> (value: Self) {
        match code {
            0 => Nl80211Bandc::Band2ghz,
            1 => Nl80211Bandc::Band5ghz,
            2 => Nl80211Bandc::Band60ghz,
            3 => Nl80211Bandc::NumBands,
            _ => Nl80211Bandc::UnrecognizedConst(code),
        }
    }
}

impl FromSpecImpl<u16> for Nl80211Bandc {
    open spec fn obeys_from_spec() -> bool {
        true
    }

    open spec fn from_spec(code: u16) -> Self {
        Self::spec_from_code(code)
    }
}

impl From<Nl80211Bandc> for u16 {
    fn from(value: Nl80211Bandc) -> (code: u16) {
        match value {
            Nl80211Bandc::Band2ghz => 0,
            Nl80211Bandc::Band5ghz => 1,
            Nl80211Bandc::Band60ghz => 2,
            Nl80211Bandc::NumBands => 3,
            Nl80211Bandc::UnrecognizedConst(code) => code,
        }
    }
}

impl FromSpecImpl<Nl80211Bandc> for u16 {
    open spec fn obeys_from_spec() -> bool {
        true
    }

    open spec fn from_spec(value: Nl80211Bandc) -> u16 {
        value.spec_code()
    }
}

/// The kernel's `nl80211_ps_state` enumeration.
#[derive(Clone, Copy, Debug, PartialEq, Eq, PartialOrd, Ord, Hash, Structural)]
pub enum Nl80211PsState {
    PsDisabled,
    PsEnabled,
    UnrecognizedConst(u16),
}

impl Nl80211PsState {
    /// The value that a code stands for; where two names share a code, the
    /// first of them.
    pub open spec fn spec_from_code(code: u16) -> Self {
        match code {
            0 => Nl80211PsState::PsDisabled,
            1 => Nl80211PsState::PsEnabled,
            _ => Nl80211PsState::UnrecognizedConst(code),
        }
    }

    /// The code of a value.
    pub open spec fn spec_code(self) -> u16 {
        match self {
            Nl80211PsState::PsDisabled => 0,
            Nl80211PsState::PsEnabled => 1,
            Nl80211PsState::UnrecognizedConst(code) => code,
        }
    }

    /// Whether the value is none that the vocabulary names.
    pub fn is_unrecognized(&self) -> (r: bool)
        ensures
            r == (*self is UnrecognizedConst),
    {
        match self {
            Nl80211PsState::UnrecognizedConst(_) => true,
            _ => false,
        }
    }

    /// Every code is the code of the value it stands for.
    pub proof fn lemma_code_round_trip(code: u16)
        ensures
            Self::spec_from_code(code).spec_code() == code,
    {
    }
}

impl From<u16> for Nl80211PsState {
    fn from(code: u16) -> (value: Self) {
        match code {
            0 => Nl80211PsState::PsDisabled,
            1 => Nl80211PsState::PsEnabled,
            _ => Nl80211PsState::UnrecognizedConst(code),
        }
    }
}

impl FromSpecImpl<u16> for Nl80211PsState {
    open spec fn obeys_from_spec() -> bool {
        true
    }

    open spec fn from_spec(code: u16) -> Self {
        Self::spec_from_code(code)
    }
}

impl From<Nl80211PsState> for u16 {
    fn from(value: Nl80211PsState) -> (code: u16) {
        match value {
            Nl80211PsState::PsDisabled => 0,
            Nl80211PsState::PsEnabled => 1,
            Nl80211PsState::UnrecognizedConst(code) => code,
        }
    }
}

impl FromSpecImpl<Nl80211PsState> for u16 {
    open spec fn obeys_from_spec() -> bool {
        true
    }

    open spec fn from_spec(value: Nl80211PsState) -> u16 {
        value.spec_code()
    }
}

/// The kernel's `nl80211_attr_cqm` enumeration.
#[derive(Clone, Copy, Debug, PartialEq, Eq, PartialOrd, Ord, Hash, Structural)]
pub enum Nl80211AttrCqm {
    AttrCqmInvalid,
    AttrCqmRssiThold,
    AttrCqmRssiHyst,
    AttrCqmRssiThresholdEvent,
    AttrCqmPktLossEvent,
    AttrCqmTxeRate,
    AttrCqmTxePkts,
    AttrCqmTxeIntvl,
    AttrCqmBeaconLossEvent,
    AttrCqmAfterLast,
    AttrCqmMax,
    UnrecognizedConst(u16),
}

impl Nl80211AttrCqm {
    /// The value that a code stands for; where two names share a code, the
    /// first of them.
    pub open spec fn spec_from_code(code: u16) -> Self {
        match code {
            0 => Nl80211AttrCqm::AttrCqmInvalid,
            1 => Nl80211AttrCqm::AttrCqmRssiThold,
            2 => Nl80211AttrCqm::AttrCqmRssiHyst,
            3 => Nl80211AttrCqm::AttrCqmRssiThresholdEvent,
            4 => Nl80211AttrCqm::AttrCqmPktLossEvent,
            5 => Nl80211AttrCqm::AttrCqmTxeRate,
            6 => Nl80211AttrCqm::AttrCqmTxePkts,
            7 => Nl80211AttrCqm::AttrCqmTxeIntvl,
            8 => Nl80211AttrCqm::AttrCqmBeaconLossEvent,
            9 => Nl80211AttrCqm::AttrCqmAfterLast,
            _ => Nl80211AttrCqm::UnrecognizedConst(code),
        }
    }

    /// The code of a value.
    pub open spec fn spec_code(self) -> u16 {
        match self {
            Nl80211AttrCqm::AttrCqmInvalid => 0,
            Nl80211AttrCqm::AttrCqmRssiThold => 1,
            Nl80211AttrCqm::AttrCqmRssiHyst => 2,
            Nl80211AttrCqm::AttrCqmRssiThresholdEvent => 3,
            Nl80211AttrCqm::AttrCqmPktLossEvent => 4,
            Nl80211AttrCqm::AttrCqmTxeRate => 5,
            Nl80211AttrCqm::AttrCqmTxePkts => 6,
            Nl80211AttrCqm::AttrCqmTxeIntvl => 7,
            Nl80211AttrCqm::AttrCqmBeaconLossEvent => 8,
            Nl80211AttrCqm::AttrCqmAfterLast => 9,
            Nl80211AttrCqm::AttrCqmMax => 8,
            Nl80211AttrCqm::UnrecognizedConst(code) => code,
        }
    }

    /// Whether the value is none that the vocabulary names.
    pub fn is_unrecognized(&self) -> (r: bool)
        ensures
            r == (*self is UnrecognizedConst),
    {
        match self {
            Nl80211AttrCqm::UnrecognizedConst(_) => true,
            _ => false,
        }
    }

    /// Every code is the code of the value it stands for.
    pub proof fn lemma_code_round_trip(code: u16)
        ensures
            Self::spec_from_code(code).spec_code() == code,
    {
    }
}

impl From<u16> for Nl80211AttrCqm {
    fn from(code: u16) -> (value: Self) {
        match code {
            0 => Nl80211AttrCqm::AttrCqmInvalid,
            1 => Nl80211AttrCqm::AttrCqmRssiThold,
            2 => Nl80211AttrCqm::AttrCqmRssiHyst,
            3 => Nl80211AttrCqm::AttrCqmRssiThresholdEvent,
            4 => Nl80211AttrCqm::AttrCqmPktLossEvent,
            5 => Nl80211AttrCqm::AttrCqmTxeRate,
            6 => Nl80211AttrCqm::AttrCqmTxePkts,
            7 => Nl80211AttrCqm::AttrCqmTxeIntvl,
            8 => Nl80211AttrCqm::AttrCqmBeaconLossEvent,
            9 => Nl80211AttrCqm::AttrCqmAfterLast,
            _ => Nl80211AttrCqm::UnrecognizedConst(code),
        }
    }
}

impl FromSpecImpl<u16> for Nl80211AttrCqm {
    open spec fn obeys_from_spec() -> bool {
        true
    }

    open spec fn from_spec(code: u16) -> Self {
        Self::spec_from_code(code)
    }
}

impl From<Nl80211AttrCqm> for u16 {
    fn from(value: Nl80211AttrCqm) -> (code: u16) {
        match value {
            Nl80211AttrCqm::AttrCqmInvalid => 0,
            Nl80211AttrCqm::AttrCqmRssiThold => 1,
            Nl80211AttrCqm::AttrCqmRssiHyst => 2,
            Nl80211AttrCqm::AttrCqmRssiThresholdEvent => 3,
            Nl80211AttrCqm::AttrCqmPktLossEvent => 4,
            Nl80211AttrCqm::AttrCqmTxeRate => 5,
            Nl80211AttrCqm::AttrCqmTxePkts => 6,
            Nl80211AttrCqm::AttrCqmTxeIntvl => 7,
            Nl80211AttrCqm::AttrCqmBeaconLossEvent => 8,
            Nl80211AttrCqm::AttrCqmAfterLast => 9,
            Nl80211AttrCqm::AttrCqmMax => 8,
            Nl80211AttrCqm::UnrecognizedConst(code) => code,
        }
    }
}

impl FromSpecImpl<Nl80211AttrCqm> for u16 {
    open spec fn obeys_from_spec() -> bool {
        true
    }

    open spec fn from_spec(value: Nl80211AttrCqm) -> u16 {
        value.spec_code()
    }
}

/// The kernel's `nl80211_cqm_rssi_threshold_event` enumeration.
#[derive(Clone, Copy, Debug, PartialEq, Eq, PartialOrd, Ord, Hash, Structural)]
pub enum Nl80211CqmRssiThresholdEvent {
    CqmRssiThresholdEventLow,
    CqmRssiThresholdEventHigh,
    CqmRssiBeaconLossEvent,
    UnrecognizedConst(u16),
}

impl Nl80211CqmRssiThresholdEvent {
    /// The value that a code stands for; where two names share a code, the
    /// first of them.
    pub open spec fn spec_from_code(code: u16) -> Self {
        match code {
            0 => Nl80211CqmRssiThresholdEvent::CqmRssiThresholdEventLow,
            1 => Nl80211CqmRssiThresholdEvent::CqmRssiThresholdEventHigh,
            2 => Nl80211CqmRssiThresholdEvent::CqmRssiBeaconLossEvent,
            _ => Nl80211CqmRssiThresholdEvent::UnrecognizedConst(code),
        }
    }

    /// The code of a value.
    pub open spec fn spec_code(self) -> u16 {
        match self {
            Nl80211CqmRssiThresholdEvent::CqmRssiThresholdEventLow => 0,
            Nl80211CqmRssiThresholdEvent::CqmRssiThresholdEventHigh => 1,
            Nl80211CqmRssiThresholdEvent::CqmRssiBeaconLossEvent => 2,
            Nl80211CqmRssiThresholdEvent::UnrecognizedConst(code) => code,
        }
    }

    /// Whether the value is none that the vocabulary names.
    pub fn is_unrecognized(&self) -> (r: bool)
        ensures
            r == (*self is UnrecognizedConst),
    {
        match self {
            Nl80211CqmRssiThresholdEvent::UnrecognizedConst(_) => true,
            _ => false,
        }
    }

    /// Every code is the code of the value it stands for.
    pub proof fn lemma_code_round_trip(code: u16)
        ensures
            Self::spec_from_code(code).spec_code() == code,
    {
    }
}

impl From<u16> for Nl80211CqmRssiThresholdEvent {
    fn from(code: u16) -> (value: Self) {
        match code {
            0 => Nl80211CqmRssiThresholdEvent::CqmRssiThresholdEventLow,
            1 => Nl80211CqmRssiThresholdEvent::CqmRssiThresholdEventHigh,
            2 => Nl80211CqmRssiThresholdEvent::CqmRssiBeaconLossEvent,
            _ => Nl80211CqmRssiThresholdEvent::UnrecognizedConst(code),
        }
    }
}

impl FromSpecImpl<u16> for Nl80211CqmRssiThresholdEvent {
    open spec fn obeys_from_spec() -> bool {
        true
    }

    open spec fn from_spec(code: u16) -> Self {
        Self::spec_from_code(code)
    }
}

impl From<Nl80211CqmRssiThresholdEvent> for u16 {
    fn from(value: Nl80211CqmRssiThresholdEvent) -> (code: u16) {
        match value {
            Nl80211CqmRssiThresholdEvent::CqmRssiThresholdEventLow => 0,
            Nl80211CqmRssiThresholdEvent::CqmRssiThresholdEventHigh => 1,
            Nl80211CqmRssiThresholdEvent::CqmRssiBeaconLossEvent => 2,
            Nl80211CqmRssiThresholdEvent::UnrecognizedConst(code) => code,
        }
    }
}

impl FromSpecImpl<Nl80211CqmRssiThresholdEvent> for u16 {
    open spec fn obeys_from_spec() -> bool {
        true
    }

    open spec fn from_spec(value: Nl80211CqmRssiThresholdEvent) -> u16 {
        value.spec_code()
    }
}

/// The kernel's `nl80211_tx_power_setting` enumeration.
#[derive(Clone, Copy, Debug, PartialEq, Eq, PartialOrd, Ord, Hash, Structural)]
pub enum Nl80211TxPowerSetting {
    TxPowerAutomatic,
    TxPowerLimited,
    TxPowerFixed,
    UnrecognizedConst(u16),
}

impl Nl80211TxPowerSetting {
    /// The value that a code stands for; where two names share a code, the
    /// first of them.
    pub open spec fn spec_from_code(code: u16) -> Self {
        match code {
            0 => Nl80211TxPowerSetting::TxPowerAutomatic,
            1 => Nl80211TxPowerSetting::TxPowerLimited,
            2 => Nl80211TxPowerSetting::TxPowerFixed,
            _ => Nl80211TxPowerSetting::UnrecognizedConst(code),
        }
    }

    /// The code of a value.
    pub open spec fn spec_code(self) -> u16 {
        match self {
            Nl80211TxPowerSetting::TxPowerAutomatic => 0,
            Nl80211TxPowerSetting::TxPowerLimited => 1,
            Nl80211TxPowerSetting::TxPowerFixed => 2,
            Nl80211TxPowerSetting::UnrecognizedConst(code) => code,
        }
    }

    /// Whether the value is none that the vocabulary names.
    pub fn is_unrecognized(&self) -> (r: bool)
        ensures
            r == (*self is UnrecognizedConst),
    {
        match self {
            Nl80211TxPowerSetting::UnrecognizedConst(_) => true,
            _ => false,
        }
    }

    /// Every code is the code of the value it stands for.
    pub proof fn lemma_code_round_trip(code: u16)
        ensures
            Self::spec_from_code(code).spec_code() == code,
    {
    }
}

impl From<u16> for Nl80211TxPowerSetting {
    fn from(code: u16) -> (value: Self) {
        match code {
            0 => Nl80211TxPowerSetting::TxPowerAutomatic,
            1 => Nl80211TxPowerSetting::TxPowerLimited,
            2 => Nl80211TxPowerSetting::TxPowerFixed,
            _ => Nl80211TxPowerSetting::UnrecognizedConst(code),
        }
    }
}

impl FromSpecImpl<u16> for Nl80211TxPowerSetting {
    open spec fn obeys_from_spec() -> bool {
        true
    }

    open spec fn from_spec(code: u16) -> Self {
        Self::spec_from_code(code)
    }
}

impl From<Nl80211TxPowerSetting> for u16 {
    fn from(value: Nl80211TxPowerSetting) -> (code: u16) {
        match value {
            Nl80211TxPowerSetting::TxPowerAutomatic => 0,
            Nl80211TxPowerSetting::TxPowerLimited => 1,
            Nl80211TxPowerSetting::TxPowerFixed => 2,
            Nl80211TxPowerSetting::UnrecognizedConst(code) => code,
        }
    }
}

impl FromSpecImpl<Nl80211TxPowerSetting> for u16 {
    open spec fn obeys_from_spec() -> bool {
        true
    }

    open spec fn from_spec(value: Nl80211TxPowerSetting) -> u16 {
        value.spec_code()
    }
}

/// The kernel's `nl80211_packet_pattern_attr` enumeration.
#[derive(Clone, Copy, Debug, PartialEq, Eq, PartialOrd, Ord, Hash, Structural)]
pub enum Nl80211PacketPatternAttr {
    PktpatInvalid,
    PktpatMask,
    PktpatPattern,
    PktpatOffset,
    NumPktpat,
    MaxPktpat,
    UnrecognizedConst(u16),
}

impl Nl80211PacketPatternAttr {
    /// The value that a code stands for; where two names share a code, the
    /// first of them.
    pub open spec fn spec_from_code(code: u16) -> Self {
        match code {
            0 => Nl80211PacketPatternAttr::PktpatInvalid,
            1 => Nl80211PacketPatternAttr::PktpatMask,
            2 => Nl80211PacketPatternAttr::PktpatPattern,
            3 => Nl80211PacketPatternAttr::PktpatOffset,
            4 => Nl80211PacketPatternAttr::NumPktpat,
            _ => Nl80211PacketPatternAttr::UnrecognizedConst(code),
        }
    }

    /// The code of a value.
    pub open spec fn spec_code(self) -> u16 {
        match self {
            Nl80211PacketPatternAttr::PktpatInvalid => 0,
            Nl80211PacketPatternAttr::PktpatMask => 1,
            Nl80211PacketPatternAttr::PktpatPattern => 2,
            Nl80211PacketPatternAttr::PktpatOffset => 3,
            Nl80211PacketPatternAttr::NumPktpat => 4,
            Nl80211PacketPatternAttr::MaxPktpat => 3,
            Nl80211PacketPatternAttr::UnrecognizedConst(code) => code,
        }
    }

    /// Whether the value is none that the vocabulary names.
    pub fn is_unrecognized(&self) -> (r: bool)
        ensures
            r == (*self is UnrecognizedConst),
    {
        match self {
            Nl80211PacketPatternAttr::UnrecognizedConst(_) => true,
            _ => false,
        }
    }

    /// Every code is the code of the value it stands for.
    pub proof fn lemma_code_round_trip(code: u16)
        ensures
            Self::spec_from_code(code).spec_code() == code,
    {
    }
}

impl From<u16> for Nl80211PacketPatternAttr {
    fn from(code: u16) -> (value: Self) {
        match code {
            0 => Nl80211PacketPatternAttr::PktpatInvalid,
            1 => Nl80211PacketPatternAttr::PktpatMask,
            2 => Nl80211PacketPatternAttr::PktpatPattern,
            3 => Nl80211PacketPatternAttr::PktpatOffset,
            4 => Nl80211PacketPatternAttr::NumPktpat,
            _ => Nl80211PacketPatternAttr::UnrecognizedConst(code),
        }
    }
}

impl FromSpecImpl<u16> for Nl80211PacketPatternAttr {
    open spec fn obeys_from_spec() -> bool {
        true
    }

    open spec fn from_spec(code: u16) -> Self {
        Self::spec_from_code(code)
    }
}

impl From<Nl80211PacketPatternAttr> for u16 {
    fn from(value: Nl80211PacketPatternAttr) -> (code: u16) {
        match value {
            Nl80211PacketPatternAttr::PktpatInvalid => 0,
            Nl80211PacketPatternAttr::PktpatMask => 1,
            Nl80211PacketPatternAttr::PktpatPattern => 2,
            Nl80211PacketPatternAttr::PktpatOffset => 3,
            Nl80211PacketPatternAttr::NumPktpat => 4,
            Nl80211PacketPatternAttr::MaxPktpat => 3,
            Nl80211PacketPatternAttr::UnrecognizedConst(code) => code,
        }
    }
}

impl FromSpecImpl<Nl80211PacketPatternAttr> for u16 {
    open spec fn obeys_from_spec() -> bool {
        true
    }

    open spec fn from_spec(value: Nl80211PacketPatternAttr) -> u16 {
        value.spec_code()
    }
}

/// The kernel's `nl80211_wowlan_triggers` enumeration.
#[derive(Clone, Copy, Debug, PartialEq, Eq, PartialOrd, Ord, Hash, Structural)]
pub enum Nl80211WowlanTriggers {
    WowlanTrigInvalid,
    WowlanTrigAny,
    WowlanTrigDisconnect,
    WowlanTrigMagicPkt,
    WowlanTrigPktPattern,
    WowlanTrigGtkRekeySupported,
    WowlanTrigGtkRekeyFailure,
    WowlanTrigEapIdentRequest,
    WowlanTrig4wayHandshake,
    WowlanTrigRfkillRelease,
    WowlanTrigWakeupPkt80211,
    WowlanTrigWakeupPkt80211Len,
    WowlanTrigWakeupPkt8023,
    WowlanTrigWakeupPkt8023Len,
    WowlanTrigTcpConnection,
    WowlanTrigWakeupTcpMatch,
    WowlanTrigWakeupTcpConnlost,
    WowlanTrigWakeupTcpNomoretokens,
    WowlanTrigNetDetect,
    WowlanTrigNetDetectResults,
    NumWowlanTrig,
    MaxWowlanTrig,
    UnrecognizedConst(u16),
}

impl Nl80211WowlanTriggers {
    /// The value that a code stands for; where two names share a code, the
    /// first of them.
    pub open spec fn spec_from_code(code: u16) -> Self {
        match code {
            0 => Nl80211WowlanTriggers::WowlanTrigInvalid,
            1 => Nl80211WowlanTriggers::WowlanTrigAny,
            2 => Nl80211WowlanTriggers::WowlanTrigDisconnect,
            3 => Nl80211WowlanTriggers::WowlanTrigMagicPkt,
            4 => Nl80211WowlanTriggers::WowlanTrigPktPattern,
            5 => Nl80211WowlanTriggers::WowlanTrigGtkRekeySupported,
            6 => Nl80211WowlanTriggers::WowlanTrigGtkRekeyFailure,
            7 => Nl80211WowlanTriggers::WowlanTrigEapIdentRequest,
            8 => Nl80211WowlanTriggers::WowlanTrig4wayHandshake,
            9 => Nl80211WowlanTriggers::WowlanTrigRfkillRelease,
            10 => Nl80211WowlanTriggers::WowlanTrigWakeupPkt80211,
            11 => Nl80211WowlanTriggers::WowlanTrigWakeupPkt80211Len,
            12 => Nl80211WowlanTriggers::WowlanTrigWakeupPkt8023,
            13 => Nl80211WowlanTriggers::WowlanTrigWakeupPkt8023Len,
            14 => Nl80211WowlanTriggers::WowlanTrigTcpConnection,
            15 => Nl80211WowlanTriggers::WowlanTrigWakeupTcpMatch,
            16 => Nl80211WowlanTriggers::WowlanTrigWakeupTcpConnlost,
            17 => Nl80211WowlanTriggers::WowlanTrigWakeupTcpNomoretokens,
            18 => Nl80211WowlanTriggers::WowlanTrigNetDetect,
            19 => Nl80211WowlanTriggers::WowlanTrigNetDetectResults,
            20 => Nl80211WowlanTriggers::NumWowlanTrig,
            _ => Nl80211WowlanTriggers::UnrecognizedConst(code),
        }
    }

    /// The code of a value.
    pub open spec fn spec_code(self) -> u16 {
        match self {
            Nl80211WowlanTriggers::WowlanTrigInvalid => 0,
            Nl80211WowlanTriggers::WowlanTrigAny => 1,
            Nl80211WowlanTriggers::WowlanTrigDisconnect => 2,
            Nl80211WowlanTriggers::WowlanTrigMagicPkt => 3,
            Nl80211WowlanTriggers::WowlanTrigPktPattern => 4,
            Nl80211WowlanTriggers::WowlanTrigGtkRekeySupported => 5,
            Nl80211WowlanTriggers::WowlanTrigGtkRekeyFailure => 6,
            Nl80211WowlanTriggers::WowlanTrigEapIdentRequest => 7,
            Nl80211WowlanTriggers::WowlanTrig4wayHandshake => 8,
            Nl80211WowlanTriggers::WowlanTrigRfkillRelease => 9,
            Nl80211WowlanTriggers::WowlanTrigWakeupPkt80211 => 10,
            Nl80211WowlanTriggers::WowlanTrigWakeupPkt80211Len => 11,
            Nl80211WowlanTriggers::WowlanTrigWakeupPkt8023 => 12,
            Nl80211WowlanTriggers::WowlanTrigWakeupPkt8023Len => 13,
            Nl80211WowlanTriggers::WowlanTrigTcpConnection => 14,
            Nl80211WowlanTriggers::WowlanTrigWakeupTcpMatch => 15,
            Nl80211WowlanTriggers::WowlanTrigWakeupTcpConnlost => 16,
            Nl80211WowlanTriggers::WowlanTrigWakeupTcpNomoretokens => 17,
            Nl80211WowlanTriggers::WowlanTrigNetDetect => 18,
            Nl80211WowlanTriggers::WowlanTrigNetDetectResults => 19,
            Nl80211WowlanTriggers::NumWowlanTrig => 20,
            Nl80211WowlanTriggers::MaxWowlanTrig => 19,
            Nl80211WowlanTriggers::UnrecognizedConst(code) => code,
        }
    }

    /// Whether the value is none that the vocabulary names.
    pub fn is_unrecognized(&self) -> (r: bool)
        ensures
            r == (*self is UnrecognizedConst),
    {
        match self {
            Nl80211WowlanTriggers::UnrecognizedConst(_) => true,
            _ => false,
        }
    }

    /// Every code is the code of the value it stands for.
    pub proof fn lemma_code_round_trip(code: u16)
        ensures
            Self::spec_from_code(code).spec_code() == code,
    {
    }
}

impl From<u16> for Nl80211WowlanTriggers {
    fn from(code: u16) -> (value: Self) {
        match code {
            0 => Nl80211WowlanTriggers::WowlanTrigInvalid,
            1 => Nl80211WowlanTriggers::WowlanTrigAny,
            2 => Nl80211WowlanTriggers::WowlanTrigDisconnect,
            3 => Nl80211WowlanTriggers::WowlanTrigMagicPkt,
            4 => Nl80211WowlanTriggers::WowlanTrigPktPattern,
            5 => Nl80211WowlanTriggers::WowlanTrigGtkRekeySupported,
            6 => Nl80211WowlanTriggers::WowlanTrigGtkRekeyFailure,
            7 => Nl80211WowlanTriggers::WowlanTrigEapIdentRequest,
            8 => Nl80211WowlanTriggers::WowlanTrig4wayHandshake,
            9 => Nl80211WowlanTriggers::WowlanTrigRfkillRelease,
            10 => Nl80211WowlanTriggers::WowlanTrigWakeupPkt80211,
            11 => Nl80211WowlanTriggers::WowlanTrigWakeupPkt80211Len,
            12 => Nl80211WowlanTriggers::WowlanTrigWakeupPkt8023,
            13 => Nl80211WowlanTriggers::WowlanTrigWakeupPkt8023Len,
            14 => Nl80211WowlanTriggers::WowlanTrigTcpConnection,
            15 => Nl80211WowlanTriggers::WowlanTrigWakeupTcpMatch,
            16 => Nl80211WowlanTriggers::WowlanTrigWakeupTcpConnlost,
            17 => Nl80211WowlanTriggers::WowlanTrigWakeupTcpNomoretokens,
            18 => Nl80211WowlanTriggers::WowlanTrigNetDetect,
            19 => Nl80211WowlanTriggers::WowlanTrigNetDetectResults,
            20 => Nl80211WowlanTriggers::NumWowlanTrig,
            _ => Nl80211WowlanTriggers::UnrecognizedConst(code),
        }
    }
}

impl FromSpecImpl<u16> for Nl80211WowlanTriggers {
    open spec fn obeys_from_spec() -> bool {
        true
    }

    open spec fn from_spec(code: u16) -> Self {
        Self::spec_from_code(code)
    }
}

impl From<Nl80211WowlanTriggers> for u16 {
    fn from(value: Nl80211WowlanTriggers) -> (code: u16) {
        match value {
            Nl80211WowlanTriggers::WowlanTrigInvalid => 0,
            Nl80211WowlanTriggers::WowlanTrigAny => 1,
            Nl80211WowlanTriggers::WowlanTrigDisconnect => 2,
            Nl80211WowlanTriggers::WowlanTrigMagicPkt => 3,
            Nl80211WowlanTriggers::WowlanTrigPktPattern => 4,
            Nl80211WowlanTriggers::WowlanTrigGtkRekeySupported => 5,
            Nl80211WowlanTriggers::WowlanTrigGtkRekeyFailure => 6,
            Nl80211WowlanTriggers::WowlanTrigEapIdentRequest => 7,
            Nl80211WowlanTriggers::WowlanTrig4wayHandshake => 8,
            Nl80211WowlanTriggers::WowlanTrigRfkillRelease => 9,
            Nl80211WowlanTriggers::WowlanTrigWakeupPkt80211 => 10,
            Nl80211WowlanTriggers::WowlanTrigWakeupPkt80211Len => 11,
            Nl80211WowlanTriggers::WowlanTrigWakeupPkt8023 => 12,
            Nl80211WowlanTriggers::WowlanTrigWakeupPkt8023Len => 13,
            Nl80211WowlanTriggers::WowlanTrigTcpConnection => 14,
            Nl80211WowlanTriggers::WowlanTrigWakeupTcpMatch => 15,
            Nl80211WowlanTriggers::WowlanTrigWakeupTcpConnlost => 16,
            Nl80211WowlanTriggers::WowlanTrigWakeupTcpNomoretokens => 17,
            Nl80211WowlanTriggers::WowlanTrigNetDetect => 18,
            Nl80211WowlanTriggers::WowlanTrigNetDetectResults => 19,
            Nl80211WowlanTriggers::NumWowlanTrig => 20,
            Nl80211WowlanTriggers::MaxWowlanTrig => 19,
            Nl80211WowlanTriggers::UnrecognizedConst(code) => code,
        }
    }
}

impl FromSpecImpl<Nl80211WowlanTriggers> for u16 {
    open spec fn obeys_from_spec() -> bool {
        true
    }

    open spec fn from_spec(value: Nl80211WowlanTriggers) -> u16 {
        value.spec_code()
    }
}

/// The kernel's `nl80211_wowlan_tcp_attrs` enumeration.
#[derive(Clone, Copy, Debug, PartialEq, Eq, PartialOrd, Ord, Hash, Structural)]
pub enum Nl80211WowlanTcpAttrs {
    WowlanTcpInvalid,
    WowlanTcpSrcIpv4,
    WowlanTcpDstIpv4,
    WowlanTcpDstMac,
    WowlanTcpSrcPort,
    WowlanTcpDstPort,
    WowlanTcpDataPayload,
    WowlanTcpDataPayloadSeq,
    WowlanTcpDataPayloadToken,
    WowlanTcpDataInterval,
    WowlanTcpWakePayload,
    WowlanTcpWakeMask,
    NumWowlanTcp,
    MaxWowlanTcp,
    UnrecognizedConst(u16),
}

impl Nl80211WowlanTcpAttrs {
    /// The value that a code stands for; where two names share a code, the
    /// first of them.
    pub open spec fn spec_from_code(code: u16) -> Self {
        match code {
            0 => Nl80211WowlanTcpAttrs::WowlanTcpInvalid,
            1 => Nl80211WowlanTcpAttrs::WowlanTcpSrcIpv4,
            2 => Nl80211WowlanTcpAttrs::WowlanTcpDstIpv4,
            3 => Nl80211WowlanTcpAttrs::WowlanTcpDstMac,
            4 => Nl80211WowlanTcpAttrs::WowlanTcpSrcPort,
            5 => Nl80211WowlanTcpAttrs::WowlanTcpDstPort,
            6 => Nl80211WowlanTcpAttrs::WowlanTcpDataPayload,
            7 => Nl80211WowlanTcpAttrs::WowlanTcpDataPayloadSeq,
            8 => Nl80211WowlanTcpAttrs::WowlanTcpDataPayloadToken,
            9 => Nl80211WowlanTcpAttrs::WowlanTcpDataInterval,
            10 => Nl80211WowlanTcpAttrs::WowlanTcpWakePayload,
            11 => Nl80211WowlanTcpAttrs::WowlanTcpWakeMask,
            12 => Nl80211WowlanTcpAttrs::NumWowlanTcp,
            _ => Nl80211WowlanTcpAttrs::UnrecognizedConst(code),
        }
    }

    /// The code of a value.
    pub open spec fn spec_code(self) -> u16 {
        match self {
            Nl80211WowlanTcpAttrs::WowlanTcpInvalid => 0,
            Nl80211WowlanTcpAttrs::WowlanTcpSrcIpv4 => 1,
            Nl80211WowlanTcpAttrs::WowlanTcpDstIpv4 => 2,
            Nl80211WowlanTcpAttrs::WowlanTcpDstMac => 3,
            Nl80211WowlanTcpAttrs::WowlanTcpSrcPort => 4,
            Nl80211WowlanTcpAttrs::WowlanTcpDstPort => 5,
            Nl80211WowlanTcpAttrs::WowlanTcpDataPayload => 6,
            Nl80211WowlanTcpAttrs::WowlanTcpDataPayloadSeq => 7,
            Nl80211WowlanTcpAttrs::WowlanTcpDataPayloadToken => 8,
            Nl80211WowlanTcpAttrs::WowlanTcpDataInterval => 9,
            Nl80211WowlanTcpAttrs::WowlanTcpWakePayload => 10,
            Nl80211WowlanTcpAttrs::WowlanTcpWakeMask => 11,
            Nl80211WowlanTcpAttrs::NumWowlanTcp => 12,
            Nl80211WowlanTcpAttrs::MaxWowlanTcp => 11,
            Nl80211WowlanTcpAttrs::UnrecognizedConst(code) => code,
        }
    }

    /// Whether the value is none that the vocabulary names.
    pub fn is_unrecognized(&self) -> (r: bool)
        ensures
            r == (*self is UnrecognizedConst),
    {
        match self {
            Nl80211WowlanTcpAttrs::UnrecognizedConst(_) => true,
            _ => false,
        }
    }

    /// Every code is the code of the value it stands for.
    pub proof fn lemma_code_round_trip(code: u16)
        ensures
            Self::spec_from_code(code).spec_code() == code,
    {
    }
}

impl From<u16> for Nl80211WowlanTcpAttrs {
    fn from(code: u16) -> (value: Self) {
        match code {
            0 => Nl80211WowlanTcpAttrs::WowlanTcpInvalid,
            1 => Nl80211WowlanTcpAttrs::WowlanTcpSrcIpv4,
            2 => Nl80211WowlanTcpAttrs::WowlanTcpDstIpv4,
            3 => Nl80211WowlanTcpAttrs::WowlanTcpDstMac,
            4 => Nl80211WowlanTcpAttrs::WowlanTcpSrcPort,
            5 => Nl80211WowlanTcpAttrs::WowlanTcpDstPort,
            6 => Nl80211WowlanTcpAttrs::WowlanTcpDataPayload,
            7 => Nl80211WowlanTcpAttrs::WowlanTcpDataPayloadSeq,
            8 => Nl80211WowlanTcpAttrs::WowlanTcpDataPayloadToken,
            9 => Nl80211WowlanTcpAttrs::WowlanTcpDataInterval,
            10 => Nl80211WowlanTcpAttrs::WowlanTcpWakePayload,
            11 => Nl80211WowlanTcpAttrs::WowlanTcpWakeMask,
            12 => Nl80211WowlanTcpAttrs::NumWowlanTcp,
            _ => Nl80211WowlanTcpAttrs::UnrecognizedConst(code),
        }
    }
}

impl FromSpecImpl<u16> for Nl80211WowlanTcpAttrs {
    open spec fn obeys_from_spec() -> bool {
        true
    }

    open spec fn from_spec(code: u16) -> Self {
        Self::spec_from_code(code)
    }
}

impl From<Nl80211WowlanTcpAttrs> for u16 {
    fn from(value: Nl80211WowlanTcpAttrs) -> (code: u16) {
        match value {
            Nl80211WowlanTcpAttrs::WowlanTcpInvalid => 0,
            Nl80211WowlanTcpAttrs::WowlanTcpSrcIpv4 => 1,
            Nl80211WowlanTcpAttrs::WowlanTcpDstIpv4 => 2,
            Nl80211WowlanTcpAttrs::WowlanTcpDstMac => 3,
            Nl80211WowlanTcpAttrs::WowlanTcpSrcPort => 4,
            Nl80211WowlanTcpAttrs::WowlanTcpDstPort => 5,
            Nl80211WowlanTcpAttrs::WowlanTcpDataPayload => 6,
            Nl80211WowlanTcpAttrs::WowlanTcpDataPayloadSeq => 7,
            Nl80211WowlanTcpAttrs::WowlanTcpDataPayloadToken => 8,
            Nl80211WowlanTcpAttrs::WowlanTcpDataInterval => 9,
            Nl80211WowlanTcpAttrs::WowlanTcpWakePayload => 10,
            Nl80211WowlanTcpAttrs::WowlanTcpWakeMask => 11,
            Nl80211WowlanTcpAttrs::NumWowlanTcp => 12,
            Nl80211WowlanTcpAttrs::MaxWowlanTcp => 11,
            Nl80211WowlanTcpAttrs::UnrecognizedConst(code) => code,
        }
    }
}

impl FromSpecImpl<Nl80211WowlanTcpAttrs> for u16 {
    open spec fn obeys_from_spec() -> bool {
        true
    }

    open spec fn from_spec(value: Nl80211WowlanTcpAttrs) -> u16 {
        value.spec_code()
    }
}

/// The kernel's `nl80211_attr_coalesce_rule` enumeration.
#[derive(Clone, Copy, Debug, PartialEq, Eq, PartialOrd, Ord, Hash, Structural)]
pub enum Nl80211AttrCoalesceRule {
    CoalesceRuleInvalid,
    AttrCoalesceRuleDelay,
    AttrCoalesceRuleCondition,
    AttrCoalesceRulePktPattern,
    NumAttrCoalesceRule,
    AttrCoalesceRuleMax,
    UnrecognizedConst(u16),
}

impl Nl80211AttrCoalesceRule {
    /// The value that a code stands for; where two names share a code, the
    /// first of them.
    pub open spec fn spec_from_code(code: u16) -> Self {
        match code {
            0 => Nl80211AttrCoalesceRule::CoalesceRuleInvalid,
            1 => Nl80211AttrCoalesceRule::AttrCoalesceRuleDelay,
            2 => Nl80211AttrCoalesceRule::AttrCoalesceRuleCondition,
            3 => Nl80211AttrCoalesceRule::AttrCoalesceRulePktPattern,
            4 => Nl80211AttrCoalesceRule::NumAttrCoalesceRule,
            _ => Nl80211AttrCoalesceRule::UnrecognizedConst(code),
        }
    }

    /// The code of a value.
    pub open spec fn spec_code(self) -> u16 {
        match self {
            Nl80211AttrCoalesceRule::CoalesceRuleInvalid => 0,
            Nl80211AttrCoalesceRule::AttrCoalesceRuleDelay => 1,
            Nl80211AttrCoalesceRule::AttrCoalesceRuleCondition => 2,
            Nl80211AttrCoalesceRule::AttrCoalesceRulePktPattern => 3,
            Nl80211AttrCoalesceRule::NumAttrCoalesceRule => 4,
            Nl80211AttrCoalesceRule::AttrCoalesceRuleMax => 3,
            Nl80211AttrCoalesceRule::UnrecognizedConst(code) => code,
        }
    }

    /// Whether the value is none that the vocabulary names.
    pub fn is_unrecognized(&self) -> (r: bool)
        ensures
            r == (*self is UnrecognizedConst),
    {
        match self {
            Nl80211AttrCoalesceRule::UnrecognizedConst(_) => true,
            _ => false,
        }
    }

    /// Every code is the code of the value it stands for.
    pub proof fn lemma_code_round_trip(code: u16)
        ensures
            Self::spec_from_code(code).spec_code() == code,
    {
    }
}

impl From<u16> for Nl80211AttrCoalesceRule {
    fn from(code: u16) -> (value: Self) {
        match code {
            0 => Nl80211AttrCoalesceRule::CoalesceRuleInvalid,
            1 => Nl80211AttrCoalesceRule::AttrCoalesceRuleDelay,
            2 => Nl80211AttrCoalesceRule::AttrCoalesceRuleCondition,
            3 => Nl80211AttrCoalesceRule::AttrCoalesceRulePktPattern,
            4 => Nl80211AttrCoalesceRule::NumAttrCoalesceRule,
            _ => Nl80211AttrCoalesceRule::UnrecognizedConst(code),
        }
    }
}

impl FromSpecImpl<u16> for Nl80211AttrCoalesceRule {
    open spec fn obeys_from_spec() -> bool {
        true
    }

    open spec fn from_spec(code: u16) -> Self {
        Self::spec_from_code(code)
    }
}

impl From<Nl80211AttrCoalesceRule> for u16 {
    fn from(value: Nl80211AttrCoalesceRule) -> (code: u16) {
        match value {
            Nl80211AttrCoalesceRule::CoalesceRuleInvalid => 0,
            Nl80211AttrCoalesceRule::AttrCoalesceRuleDelay => 1,
            Nl80211AttrCoalesceRule::AttrCoalesceRuleCondition => 2,
            Nl80211AttrCoalesceRule::AttrCoalesceRulePktPattern => 3,
            Nl80211AttrCoalesceRule::NumAttrCoalesceRule => 4,
            Nl80211AttrCoalesceRule::AttrCoalesceRuleMax => 3,
            Nl80211AttrCoalesceRule::UnrecognizedConst(code) => code,
        }
    }
}

impl FromSpecImpl<Nl80211AttrCoalesceRule> for u16 {
    open spec fn obeys_from_spec() -> bool {
        true
    }

    open spec fn from_spec(value: Nl80211AttrCoalesceRule) -> u16 {
        value.spec_code()
    }
}

/// The kernel's `nl80211_coalesce_condition` enumeration.
#[derive(Clone, Copy, Debug, PartialEq, Eq, PartialOrd, Ord, Hash, Structural)]
pub enum Nl80211CoalesceCondition {
    CoalesceConditionMatch,
    CoalesceConditionNoMatch,
    UnrecognizedConst(u16),
}

impl Nl80211CoalesceCondition {
    /// The value that a code stands for; where two names share a code, the
    /// first of them.
    pub open spec fn spec_from_code(code: u16) -> Self {
        match code {
            0 => Nl80211CoalesceCondition::CoalesceConditionMatch,
            1 => Nl80211CoalesceCondition::CoalesceConditionNoMatch,
            _ => Nl80211CoalesceCondition::UnrecognizedConst(code),
        }
    }

    /// The code of a value.
    pub open spec fn spec_code(self) -> u16 {
        match self {
            Nl80211CoalesceCondition::CoalesceConditionMatch => 0,
            Nl80211CoalesceCondition::CoalesceConditionNoMatch => 1,
            Nl80211CoalesceCondition::UnrecognizedConst(code) => code,
        }
    }

    /// Whether the value is none that the vocabulary names.
    pub fn is_unrecognized(&self) -> (r: bool)
        ensures
            r == (*self is UnrecognizedConst),
    {
        match self {
            Nl80211CoalesceCondition::UnrecognizedConst(_) => true,
            _ => false,
        }
    }

    /// Every code is the code of the value it stands for.
    pub proof fn lemma_code_round_trip(code: u16)
        ensures
            Self::spec_from_code(code).spec_code() == code,
    {
    }
}

impl From<u16> for Nl80211CoalesceCondition {
    fn from(code: u16) -> (value: Self) {
        match code {
            0 => Nl80211CoalesceCondition::CoalesceConditionMatch,
            1 => Nl80211CoalesceCondition::CoalesceConditionNoMatch,
            _ => Nl80211CoalesceCondition::UnrecognizedConst(code),
        }
    }
}

impl FromSpecImpl<u16> for Nl80211CoalesceCondition {
    open spec fn obeys_from_spec() -> bool {
        true
    }

    open spec fn from_spec(code: u16) -> Self {
        Self::spec_from_code(code)
    }
}

impl From<Nl80211CoalesceCondition> for u16 {
    fn from(value: Nl80211CoalesceCondition) -> (code: u16) {
        match value {
            Nl80211CoalesceCondition::CoalesceConditionMatch => 0,
            Nl80211CoalesceCondition::CoalesceConditionNoMatch => 1,
            Nl80211CoalesceCondition::UnrecognizedConst(code) => code,
        }
    }
}

impl FromSpecImpl<Nl80211CoalesceCondition> for u16 {
    open spec fn obeys_from_spec() -> bool {
        true
    }

    open spec fn from_spec(value: Nl80211CoalesceCondition) -> u16 {
        value.spec_code()
    }
}

/// The kernel's `nl80211_iface_limit_attrs` enumeration.
#[derive(Clone, Copy, Debug, PartialEq, Eq, PartialOrd, Ord, Hash, Structural)]
pub enum Nl80211IfaceLimitAttrs {
    IfaceLimitUnspec,
    IfaceLimitMax,
    IfaceLimitTypes,
    NumIfaceLimit,
    MaxIfaceLimit,
    UnrecognizedConst(u16),
}

impl Nl80211IfaceLimitAttrs {
    /// The value that a code stands for; where two names share a code, the
    /// first of them.
    pub open spec fn spec_from_code(code: u16) -> Self {
        match code {
            0 => Nl80211IfaceLimitAttrs::IfaceLimitUnspec,
            1 => Nl80211IfaceLimitAttrs::IfaceLimitMax,
            2 => Nl80211IfaceLimitAttrs::IfaceLimitTypes,
            3 => Nl80211IfaceLimitAttrs::NumIfaceLimit,
            _ => Nl80211IfaceLimitAttrs::UnrecognizedConst(code),
        }
    }

    /// The code of a value.
    pub open spec fn spec_code(self) -> u16 {
        match self {
            Nl80211IfaceLimitAttrs::IfaceLimitUnspec => 0,
            Nl80211IfaceLimitAttrs::IfaceLimitMax => 1,
            Nl80211IfaceLimitAttrs::IfaceLimitTypes => 2,
            Nl80211IfaceLimitAttrs::NumIfaceLimit => 3,
            Nl80211IfaceLimitAttrs::MaxIfaceLimit => 2,
            Nl80211IfaceLimitAttrs::UnrecognizedConst(code) => code,
        }
    }

    /// Whether the value is none that the vocabulary names.
    pub fn is_unrecognized(&self) -> (r: bool)
        ensures
            r == (*self is UnrecognizedConst),
    {
        match self {
            Nl80211IfaceLimitAttrs::UnrecognizedConst(_) => true,
            _ => false,
        }
    }

    /// Every code is the code of the value it stands for.
    pub proof fn lemma_code_round_trip(code: u16)
        ensures
            Self::spec_from_code(code).spec_code() == code,
    {
    }
}

impl From<u16> for Nl80211IfaceLimitAttrs {
    fn from(code: u16) -> (value: Self) {
        match code {
            0 => Nl80211IfaceLimitAttrs::IfaceLimitUnspec,
            1 => Nl80211IfaceLimitAttrs::IfaceLimitMax,
            2 => Nl80211IfaceLimitAttrs::IfaceLimitTypes,
            3 => Nl80211IfaceLimitAttrs::NumIfaceLimit,
            _ => Nl80211IfaceLimitAttrs::UnrecognizedConst(code),
        }
    }
}

impl FromSpecImpl<u16> for Nl80211IfaceLimitAttrs {
    open spec fn obeys_from_spec() -> bool {
        true
    }

    open spec fn from_spec(code: u16) -> Self {
        Self::spec_from_code(code)
    }
}

impl From<Nl80211IfaceLimitAttrs> for u16 {
    fn from(value: Nl80211IfaceLimitAttrs) -> (code: u16) {
        match value {
            Nl80211IfaceLimitAttrs::IfaceLimitUnspec => 0,
            Nl80211IfaceLimitAttrs::IfaceLimitMax => 1,
            Nl80211IfaceLimitAttrs::IfaceLimitTypes => 2,
            Nl80211IfaceLimitAttrs::NumIfaceLimit => 3,
            Nl80211IfaceLimitAttrs::MaxIfaceLimit => 2,
            Nl80211IfaceLimitAttrs::UnrecognizedConst(code) => code,
        }
    }
}

impl FromSpecImpl<Nl80211IfaceLimitAttrs> for u16 {
    open spec fn obeys_from_spec() -> bool {
        true
    }

    open spec fn from_spec(value: Nl80211IfaceLimitAttrs) -> u16 {
        value.spec_code()
    }
}

/// The kernel's `nl80211_if_combination_attrs` enumeration.
#[derive(Clone, Copy, Debug, PartialEq, Eq, PartialOrd, Ord, Hash, Structural)]
pub enum Nl80211IfCombinationAttrs {
    IfaceCombUnspec,
    IfaceCombLimits,
    IfaceCombMaxnum,
    IfaceCombStaApBiMatch,
    IfaceCombNumChannels,
    IfaceCombRadarDetectWidths,
    IfaceCombRadarDetectRegions,
    NumIfaceComb,
    MaxIfaceComb,
    UnrecognizedConst(u16),
}

impl Nl80211IfCombinationAttrs {
    /// The value that a code stands for; where two names share a code, the
    /// first of them.
    pub open spec fn spec_from_code(code: u16) -> Self {
        match code {
            0 => Nl80211IfCombinationAttrs::IfaceCombUnspec,
            1 => Nl80211IfCombinationAttrs::IfaceCombLimits,
            2 => Nl80211IfCombinationAttrs::IfaceCombMaxnum,
            3 => Nl80211IfCombinationAttrs::IfaceCombStaApBiMatch,
            4 => Nl80211IfCombinationAttrs::IfaceCombNumChannels,
            5 => Nl80211IfCombinationAttrs::IfaceCombRadarDetectWidths,
            6 => Nl80211IfCombinationAttrs::IfaceCombRadarDetectRegions,
            7 => Nl80211IfCombinationAttrs::NumIfaceComb,
            _ => Nl80211IfCombinationAttrs::UnrecognizedConst(code),
        }
    }

    /// The code of a value.
    pub open spec fn spec_code(self) -> u16 {
        match self {
            Nl80211IfCombinationAttrs::IfaceCombUnspec => 0,
            Nl80211IfCombinationAttrs::IfaceCombLimits => 1,
            Nl80211IfCombinationAttrs::IfaceCombMaxnum => 2,
            Nl80211IfCombinationAttrs::IfaceCombStaApBiMatch => 3,
            Nl80211IfCombinationAttrs::IfaceCombNumChannels => 4,
            Nl80211IfCombinationAttrs::IfaceCombRadarDetectWidths => 5,
            Nl80211IfCombinationAttrs::IfaceCombRadarDetectRegions => 6,
            Nl80211IfCombinationAttrs::NumIfaceComb => 7,
            Nl80211IfCombinationAttrs::MaxIfaceComb => 6,
            Nl80211IfCombinationAttrs::UnrecognizedConst(code) => code,
        }
    }

    /// Whether the value is none that the vocabulary names.
    pub fn is_unrecognized(&self) -> (r: bool)
        ensures
            r == (*self is UnrecognizedConst),
    {
        match self {
            Nl80211IfCombinationAttrs::UnrecognizedConst(_) => true,
            _ => false,
        }
    }

    /// Every code is the code of the value it stands for.
    pub proof fn lemma_code_round_trip(code: u16)
        ensures
            Self::spec_from_code(code).spec_code() == code,
    {
    }
}

impl From<u16> for Nl80211IfCombinationAttrs {
    fn from(code: u16) -> (value: Self) {
        match code {
            0 => Nl80211IfCombinationAttrs::IfaceCombUnspec,
            1 => Nl80211IfCombinationAttrs::IfaceCombLimits,
            2 => Nl80211IfCombinationAttrs::IfaceCombMaxnum,
            3 => Nl80211IfCombinationAttrs::IfaceCombStaApBiMatch,
            4 => Nl80211IfCombinationAttrs::IfaceCombNumChannels,
            5 => Nl80211IfCombinationAttrs::IfaceCombRadarDetectWidths,
            6 => Nl80211IfCombinationAttrs::IfaceCombRadarDetectRegions,
            7 => Nl80211IfCombinationAttrs::NumIfaceComb,
            _ => Nl80211IfCombinationAttrs::UnrecognizedConst(code),
        }
    }
}

impl FromSpecImpl<u16> for Nl80211IfCombinationAttrs {
    open spec fn obeys_from_spec() -> bool {
        true
    }

    open spec fn from_spec(code: u16) -> Self {
        Self::spec_from_code(code)
    }
}

impl From<Nl80211IfCombinationAttrs> for u16 {
    fn from(value: Nl80211IfCombinationAttrs) -> (code: u16) {
        match value {
            Nl80211IfCombinationAttrs::IfaceCombUnspec => 0,
            Nl80211IfCombinationAttrs::IfaceCombLimits => 1,
            Nl80211IfCombinationAttrs::IfaceCombMaxnum => 2,
            Nl80211IfCombinationAttrs::IfaceCombStaApBiMatch => 3,
            Nl80211IfCombinationAttrs::IfaceCombNumChannels => 4,
            Nl80211IfCombinationAttrs::IfaceCombRadarDetectWidths => 5,
            Nl80211IfCombinationAttrs::IfaceCombRadarDetectRegions => 6,
            Nl80211IfCombinationAttrs::NumIfaceComb => 7,
            Nl80211IfCombinationAttrs::MaxIfaceComb => 6,
            Nl80211IfCombinationAttrs::UnrecognizedConst(code) => code,
        }
    }
}

impl FromSpecImpl<Nl80211IfCombinationAttrs> for u16 {
    open spec fn obeys_from_spec() -> bool {
        true
    }

    open spec fn from_spec(value: Nl80211IfCombinationAttrs) -> u16 {
        value.spec_code()
    }
}

/// The kernel's `nl80211_plink_state` enumeration.
#[derive(Clone, Copy, Debug, PartialEq, Eq, PartialOrd, Ord, Hash, Structural)]
pub enum Nl80211PlinkState {
    PlinkListen,
    PlinkOpnSnt,
    PlinkOpnRcvd,
    PlinkCnfRcvd,
    PlinkEstab,
    PlinkHolding,
    PlinkBlocked,
    NumPlinkStates,
    MaxPlinkStates,
    UnrecognizedConst(u16),
}

impl Nl80211PlinkState {
    /// The value that a code stands for; where two names share a code, the
    /// first of them.
    pub open spec fn spec_from_code(code: u16) -> Self {
        match code {
            0 => Nl80211PlinkState::PlinkListen,
            1 => Nl80211PlinkState::PlinkOpnSnt,
            2 => Nl80211PlinkState::PlinkOpnRcvd,
            3 => Nl80211PlinkState::PlinkCnfRcvd,
            4 => Nl80211PlinkState::PlinkEstab,
            5 => Nl80211PlinkState::PlinkHolding,
            6 => Nl80211PlinkState::PlinkBlocked,
            7 => Nl80211PlinkState::NumPlinkStates,
            _ => Nl80211PlinkState::UnrecognizedConst(code),
        }
    }

    /// The code of a value.
    pub open spec fn spec_code(self) -> u16 {
        match self {
            Nl80211PlinkState::PlinkListen => 0,
            Nl80211PlinkState::PlinkOpnSnt => 1,
            Nl80211PlinkState::PlinkOpnRcvd => 2,
            Nl80211PlinkState::PlinkCnfRcvd => 3,
            Nl80211PlinkState::PlinkEstab => 4,
            Nl80211PlinkState::PlinkHolding => 5,
            Nl80211PlinkState::PlinkBlocked => 6,
            Nl80211PlinkState::NumPlinkStates => 7,
            Nl80211PlinkState::MaxPlinkStates => 6,
            Nl80211PlinkState::UnrecognizedConst(code) => code,
        }
    }

    /// Whether the value is none that the vocabulary names.
    pub fn is_unrecognized(&self) -> (r: bool)
        ensures
            r == (*self is UnrecognizedConst),
    {
        match self {
            Nl80211PlinkState::UnrecognizedConst(_) => true,
            _ => false,
        }
    }

    /// Every code is the code of the value it stands for.
    pub proof fn lemma_code_round_trip(code: u16)
        ensures
            Self::spec_from_code(code).spec_code() == code,
    {
    }
}

impl From<u16> for Nl80211PlinkState {
    fn from(code: u16) -> (value: Self) {
        match code {
            0 => Nl80211PlinkState::PlinkListen,
            1 => Nl80211PlinkState::PlinkOpnSnt,
            2 => Nl80211PlinkState::PlinkOpnRcvd,
            3 => Nl80211PlinkState::PlinkCnfRcvd,
            4 => Nl80211PlinkState::PlinkEstab,
            5 => Nl80211PlinkState::PlinkHolding,
            6 => Nl80211PlinkState::PlinkBlocked,
            7 => Nl80211PlinkState::NumPlinkStates,
            _ => Nl80211PlinkState::UnrecognizedConst(code),
        }
    }
}

impl FromSpecImpl<u16> for Nl80211PlinkState {
    open spec fn obeys_from_spec() -> bool {
        true
    }

    open spec fn from_spec(code: u16) -> Self {
        Self::spec_from_code(code)
    }
}

impl From<Nl80211PlinkState> for u16 {
    fn from(value: Nl80211PlinkState) -> (code: u16) {
        match value {
            Nl80211PlinkState::PlinkListen => 0,
            Nl80211PlinkState::PlinkOpnSnt => 1,
            Nl80211PlinkState::PlinkOpnRcvd => 2,
            Nl80211PlinkState::PlinkCnfRcvd => 3,
            Nl80211PlinkState::PlinkEstab => 4,
            Nl80211PlinkState::PlinkHolding => 5,
            Nl80211PlinkState::PlinkBlocked => 6,
            Nl80211PlinkState::NumPlinkStates => 7,
            Nl80211PlinkState::MaxPlinkStates => 6,
            Nl80211PlinkState::UnrecognizedConst(code) => code,
        }
    }
}

impl FromSpecImpl<Nl80211PlinkState> for u16 {
    open spec fn obeys_from_spec() -> bool {
        true
    }

    open spec fn from_spec(value: Nl80211PlinkState) -> u16 {
        value.spec_code()
    }
}

/// The kernel's `plink_actions` enumeration.
#[derive(Clone, Copy, Debug, PartialEq, Eq, PartialOrd, Ord, Hash, Structural)]
pub enum PlinkActions {
    PlinkActionNoAction,
    PlinkActionOpen,
    PlinkActionBlock,
    NumPlinkActions,
    UnrecognizedConst(u16),
}

impl PlinkActions {
    /// The value that a code stands for; where two names share a code, the
    /// first of them.
    pub open spec fn spec_from_code(code: u16) -> Self {
        match code {
            0 => PlinkActions::PlinkActionNoAction,
            1 => PlinkActions::PlinkActionOpen,
            2 => PlinkActions::PlinkActionBlock,
            3 => PlinkActions::NumPlinkActions,
            _ => PlinkActions::UnrecognizedConst(code),
        }
    }

    /// The code of a value.
    pub open spec fn spec_code(self) -> u16 {
        match self {
            PlinkActions::PlinkActionNoAction => 0,
            PlinkActions::PlinkActionOpen => 1,
            PlinkActions::PlinkActionBlock => 2,
            PlinkActions::NumPlinkActions => 3,
            PlinkActions::UnrecognizedConst(code) => code,
        }
    }

    /// Whether the value is none that the vocabulary names.
    pub fn is_unrecognized(&self) -> (r: bool)
        ensures
            r == (*self is UnrecognizedConst),
    {
        match self {
            PlinkActions::UnrecognizedConst(_) => true,
            _ => false,
        }
    }

    /// Every code is the code of the value it stands for.
    pub proof fn lemma_code_round_trip(code: u16)
        ensures
            Self::spec_from_code(code).spec_code() == code,
    {
    }
}

impl From<u16> for PlinkActions {
    fn from(code: u16) -> (value: Self) {
        match code {
            0 => PlinkActions::PlinkActionNoAction,
            1 => PlinkActions::PlinkActionOpen,
            2 => PlinkActions::PlinkActionBlock,
            3 => PlinkActions::NumPlinkActions,
            _ => PlinkActions::UnrecognizedConst(code),
        }
    }
}

impl FromSpecImpl<u16> for PlinkActions {
    open spec fn obeys_from_spec() -> bool {
        true
    }

    open spec fn from_spec(code: u16) -> Self {
        Self::spec_from_code(code)
    }
}

impl From<PlinkActions> for u16 {
    fn from(value: PlinkActions) -> (code: u16) {
        match value {
            PlinkActions::PlinkActionNoAction => 0,
            PlinkActions::PlinkActionOpen => 1,
            PlinkActions::PlinkActionBlock => 2,
            PlinkActions::NumPlinkActions => 3,
            PlinkActions::UnrecognizedConst(code) => code,
        }
    }
}

impl FromSpecImpl<PlinkActions> for u16 {
    open spec fn obeys_from_spec() -> bool {
        true
    }

    open spec fn from_spec(value: PlinkActions) -> u16 {
        value.spec_code()
    }
}

/// The kernel's `nl80211_rekey_data` enumeration.
#[derive(Clone, Copy, Debug, PartialEq, Eq, PartialOrd, Ord, Hash, Structural)]
pub enum Nl80211RekeyData {
    RekeyDataInvalid,
    RekeyDataKek,
    RekeyDataKck,
    RekeyDataReplayCtr,
    NumRekeyData,
    MaxRekeyData,
    UnrecognizedConst(u16),
}

impl Nl80211RekeyData {
    /// The value that a code stands for; where two names share a code, the
    /// first of them.
    pub open spec fn spec_from_code(code: u16) -> Self {
        match code {
            0 => Nl80211RekeyData::RekeyDataInvalid,
            1 => Nl80211RekeyData::RekeyDataKek,
            2 => Nl80211RekeyData::RekeyDataKck,
            3 => Nl80211RekeyData::RekeyDataReplayCtr,
            4 => Nl80211RekeyData::NumRekeyData,
            _ => Nl80211RekeyData::UnrecognizedConst(code),
        }
    }

    /// The code of a value.
    pub open spec fn spec_code(self) -> u16 {
        match self {
            Nl80211RekeyData::RekeyDataInvalid => 0,
            Nl80211RekeyData::RekeyDataKek => 1,
            Nl80211RekeyData::RekeyDataKck => 2,
            Nl80211RekeyData::RekeyDataReplayCtr => 3,
            Nl80211RekeyData::NumRekeyData => 4,
            Nl80211RekeyData::MaxRekeyData => 3,
            Nl80211RekeyData::UnrecognizedConst(code) => code,
        }
    }

    /// Whether the value is none that the vocabulary names.
    pub fn is_unrecognized(&self) -> (r: bool)
        ensures
            r == (*self is UnrecognizedConst),
    {
        match self {
            Nl80211RekeyData::UnrecognizedConst(_) => true,
            _ => false,
        }
    }

    /// Every code is the code of the value it stands for.
    pub proof fn lemma_code_round_trip(code: u16)
        ensures
            Self::spec_from_code(code).spec_code() == code,
    {
    }
}

impl From<u16> for Nl80211RekeyData {
    fn from(code: u16) -> (value: Self) {
        match code {
            0 => Nl80211RekeyData::RekeyDataInvalid,
            1 => Nl80211RekeyData::RekeyDataKek,
            2 => Nl80211RekeyData::RekeyDataKck,
            3 => Nl80211RekeyData::RekeyDataReplayCtr,
            4 => Nl80211RekeyData::NumRekeyData,
            _ => Nl80211RekeyData::UnrecognizedConst(code),
        }
    }
}

impl FromSpecImpl<u16> for Nl80211RekeyData {
    open spec fn obeys_from_spec() -> bool {
        true
    }

    open spec fn from_spec(code: u16) -> Self {
        Self::spec_from_code(code)
    }
}

impl From<Nl80211RekeyData> for u16 {
    fn from(value: Nl80211RekeyData) -> (code: u16) {
        match value {
            Nl80211RekeyData::RekeyDataInvalid => 0,
            Nl80211RekeyData::RekeyDataKek => 1,
            Nl80211RekeyData::RekeyDataKck => 2,
            Nl80211RekeyData::RekeyDataReplayCtr => 3,
            Nl80211RekeyData::NumRekeyData => 4,
            Nl80211RekeyData::MaxRekeyData => 3,
            Nl80211RekeyData::UnrecognizedConst(code) => code,
        }
    }
}

impl FromSpecImpl<Nl80211RekeyData> for u16 {
    open spec fn obeys_from_spec() -> bool {
        true
    }

    open spec fn from_spec(value: Nl80211RekeyData) -> u16 {
        value.spec_code()
    }
}

/// The kernel's `nl80211_hidden_ssid` enumeration.
#[derive(Clone, Copy, Debug, PartialEq, Eq, PartialOrd, Ord, Hash, Structural)]
pub enum Nl80211HiddenSsid {
    HiddenSsidNotInUse,
    HiddenSsidZeroLen,
    HiddenSsidZeroContents,
    UnrecognizedConst(u16),
}

impl Nl80211HiddenSsid {
    /// The value that a code stands for; where two names share a code, the
    /// first of them.
    pub open spec fn spec_from_code(code: u16) -> Self {
        match code {
            0 => Nl80211HiddenSsid::HiddenSsidNotInUse,
            1 => Nl80211HiddenSsid::HiddenSsidZeroLen,
            2 => Nl80211HiddenSsid::HiddenSsidZeroContents,
            _ => Nl80211HiddenSsid::UnrecognizedConst(code),
        }
    }

    /// The code of a value.
    pub open spec fn spec_code(self) -> u16 {
        match self {
            Nl80211HiddenSsid::HiddenSsidNotInUse => 0,
            Nl80211HiddenSsid::HiddenSsidZeroLen => 1,
            Nl80211HiddenSsid::HiddenSsidZeroContents => 2,
            Nl80211HiddenSsid::UnrecognizedConst(code) => code,
        }
    }

    /// Whether the value is none that the vocabulary names.
    pub fn is_unrecognized(&self) -> (r: bool)
        ensures
            r == (*self is UnrecognizedConst),
    {
        match self {
            Nl80211HiddenSsid::UnrecognizedConst(_) => true,
            _ => false,
        }
    }

    /// Every code is the code of the value it stands for.
    pub proof fn lemma_code_round_trip(code: u16)
        ensures
            Self::spec_from_code(code).spec_code() == code,
    {
    }
}

impl From<u16> for Nl80211HiddenSsid {
    fn from(code: u16) -> (value: Self) {
        match code {
            0 => Nl80211HiddenSsid::HiddenSsidNotInUse,
            1 => Nl80211HiddenSsid::HiddenSsidZeroLen,
            2 => Nl80211HiddenSsid::HiddenSsidZeroContents,
            _ => Nl80211HiddenSsid::UnrecognizedConst(code),
        }
    }
}

impl FromSpecImpl<u16> for Nl80211HiddenSsid {
    open spec fn obeys_from_spec() -> bool {
        true
    }

    open spec fn from_spec(code: u16) -> Self {
        Self::spec_from_code(code)
    }
}

impl From<Nl80211HiddenSsid> for u16 {
    fn from(value: Nl80211HiddenSsid) -> (code: u16) {
        match value {
            Nl80211HiddenSsid::HiddenSsidNotInUse => 0,
            Nl80211HiddenSsid::HiddenSsidZeroLen => 1,
            Nl80211HiddenSsid::HiddenSsidZeroContents => 2,
            Nl80211HiddenSsid::UnrecognizedConst(code) => code,
        }
    }
}

impl FromSpecImpl<Nl80211HiddenSsid> for u16 {
    open spec fn obeys_from_spec() -> bool {
        true
    }

    open spec fn from_spec(value: Nl80211HiddenSsid) -> u16 {
        value.spec_code()
    }
}

/// The kernel's `nl80211_sta_wme_attr` enumeration.
#[derive(Clone, Copy, Debug, PartialEq, Eq, PartialOrd, Ord, Hash, Structural)]
pub enum Nl80211StaWmeAttr {
    StaWmeInvalid,
    StaWmeUapsdQueues,
    StaWmeMaxSp,
    StaWmeAfterLast,
    StaWmeMax,
    UnrecognizedConst(u16),
}

impl Nl80211StaWmeAttr {
    /// The value that a code stands for; where two names share a code, the
    /// first of them.
    pub open spec fn spec_from_code(code: u16) -> Self {
        match code {
            0 => Nl80211StaWmeAttr::StaWmeInvalid,
            1 => Nl80211StaWmeAttr::StaWmeUapsdQueues,
            2 => Nl80211StaWmeAttr::StaWmeMaxSp,
            3 => Nl80211StaWmeAttr::StaWmeAfterLast,
            _ => Nl80211StaWmeAttr::UnrecognizedConst(code),
        }
    }

    /// The code of a value.
    pub open spec fn spec_code(self) -> u16 {
        match self {
            Nl80211StaWmeAttr::StaWmeInvalid => 0,
            Nl80211StaWmeAttr::StaWmeUapsdQueues => 1,
            Nl80211StaWmeAttr::StaWmeMaxSp => 2,
            Nl80211StaWmeAttr::StaWmeAfterLast => 3,
            Nl80211StaWmeAttr::StaWmeMax => 2,
            Nl80211StaWmeAttr::UnrecognizedConst(code) => code,
        }
    }

    /// Whether the value is none that the vocabulary names.
    pub fn is_unrecognized(&self) -> (r: bool)
        ensures
            r == (*self is UnrecognizedConst),
    {
        match self {
            Nl80211StaWmeAttr::UnrecognizedConst(_) => true,
            _ => false,
        }
    }

    /// Every code is the code of the value it stands for.
    pub proof fn lemma_code_round_trip(code: u16)
        ensures
            Self::spec_from_code(code).spec_code() == code,
    {
    }
}

impl From<u16> for Nl80211StaWmeAttr {
    fn from(code: u16) -> (value: Self) {
        match code {
            0 => Nl80211StaWmeAttr::StaWmeInvalid,
            1 => Nl80211StaWmeAttr::StaWmeUapsdQueues,
            2 => Nl80211StaWmeAttr::StaWmeMaxSp,
            3 => Nl80211StaWmeAttr::StaWmeAfterLast,
            _ => Nl80211StaWmeAttr::UnrecognizedConst(code),
        }
    }
}

impl FromSpecImpl<u16> for Nl80211StaWmeAttr {
    open spec fn obeys_from_spec() -> bool {
        true
    }

    open spec fn from_spec(code: u16) -> Self {
        Self::spec_from_code(code)
    }
}

impl From<Nl80211StaWmeAttr> for u16 {
    fn from(value: Nl80211StaWmeAttr) -> (code: u16) {
        match value {
            Nl80211StaWmeAttr::StaWmeInvalid => 0,
            Nl80211StaWmeAttr::StaWmeUapsdQueues => 1,
            Nl80211StaWmeAttr::StaWmeMaxSp => 2,
            Nl80211StaWmeAttr::StaWmeAfterLast => 3,
            Nl80211StaWmeAttr::StaWmeMax => 2,
            Nl80211StaWmeAttr::UnrecognizedConst(code) => code,
        }
    }
}

impl FromSpecImpl<Nl80211StaWmeAttr> for u16 {
    open spec fn obeys_from_spec() -> bool {
        true
    }

    open spec fn from_spec(value: Nl80211StaWmeAttr) -> u16 {
        value.spec_code()
    }
}

/// The kernel's `nl80211_pmksa_candidate_attr` enumeration.
#[derive(Clone, Copy, Debug, PartialEq, Eq, PartialOrd, Ord, Hash, Structural)]
pub enum Nl80211PmksaCandidateAttr {
    PmksaCandidateInvalid,
    PmksaCandidateIndex,
    PmksaCandidateBssid,
    PmksaCandidatePreauth,
    NumPmksaCandidate,
    MaxPmksaCandidate,
    UnrecognizedConst(u16),
}

impl Nl80211PmksaCandidateAttr {
    /// The value that a code stands for; where two names share a code, the
    /// first of them.
    pub open spec fn spec_from_code(code: u16) -> Self {
        match code {
            0 => Nl80211PmksaCandidateAttr::PmksaCandidateInvalid,
            1 => Nl80211PmksaCandidateAttr::PmksaCandidateIndex,
            2 => Nl80211PmksaCandidateAttr::PmksaCandidateBssid,
            3 => Nl80211PmksaCandidateAttr::PmksaCandidatePreauth,
            4 => Nl80211PmksaCandidateAttr::NumPmksaCandidate,
            _ => Nl80211PmksaCandidateAttr::UnrecognizedConst(code),
        }
    }

    /// The code of a value.
    pub open spec fn spec_code(self) -> u16 {
        match self {
            Nl80211PmksaCandidateAttr::PmksaCandidateInvalid => 0,
            Nl80211PmksaCandidateAttr::PmksaCandidateIndex => 1,
            Nl80211PmksaCandidateAttr::PmksaCandidateBssid => 2,
            Nl80211PmksaCandidateAttr::PmksaCandidatePreauth => 3,
            Nl80211PmksaCandidateAttr::NumPmksaCandidate => 4,
            Nl80211PmksaCandidateAttr::MaxPmksaCandidate => 3,
            Nl80211PmksaCandidateAttr::UnrecognizedConst(code) => code,
        }
    }

    /// Whether the value is none that the vocabulary names.
    pub fn is_unrecognized(&self) -> (r: bool)
        ensures
            r == (*self is UnrecognizedConst),
    {
        match self {
            Nl80211PmksaCandidateAttr::UnrecognizedConst(_) => true,
            _ => false,
        }
    }

    /// Every code is the code of the value it stands for.
    pub proof fn lemma_code_round_trip(code: u16)
        ensures
            Self::spec_from_code(code).spec_code() == code,
    {
    }
}

impl From<u16> for Nl80211PmksaCandidateAttr {
    fn from(code: u16) -> (value: Self) {
        match code {
            0 => Nl80211PmksaCandidateAttr::PmksaCandidateInvalid,
            1 => Nl80211PmksaCandidateAttr::PmksaCandidateIndex,
            2 => Nl80211PmksaCandidateAttr::PmksaCandidateBssid,
            3 => Nl80211PmksaCandidateAttr::PmksaCandidatePreauth,
            4 => Nl80211PmksaCandidateAttr::NumPmksaCandidate,
            _ => Nl80211PmksaCandidateAttr::UnrecognizedConst(code),
        }
    }
}

impl FromSpecImpl<u16> for Nl80211PmksaCandidateAttr {
    open spec fn obeys_from_spec() -> bool {
        true
    }

    open spec fn from_spec(code: u16) -> Self {
        Self::spec_from_code(code)
    }
}

impl From<Nl80211PmksaCandidateAttr> for u16 {
    fn from(value: Nl80211PmksaCandidateAttr) -> (code: u16) {
        match value {
            Nl80211PmksaCandidateAttr::PmksaCandidateInvalid => 0,
            Nl80211PmksaCandidateAttr::PmksaCandidateIndex => 1,
            Nl80211PmksaCandidateAttr::PmksaCandidateBssid => 2,
            Nl80211PmksaCandidateAttr::PmksaCandidatePreauth => 3,
            Nl80211PmksaCandidateAttr::NumPmksaCandidate => 4,
            Nl80211PmksaCandidateAttr::MaxPmksaCandidate => 3,
            Nl80211PmksaCandidateAttr::UnrecognizedConst(code) => code,
        }
    }
}

impl FromSpecImpl<Nl80211PmksaCandidateAttr> for u16 {
    open spec fn obeys_from_spec() -> bool {
        true
    }

    open spec fn from_spec(value: Nl80211PmksaCandidateAttr) -> u16 {
        value.spec_code()
    }
}

/// The kernel's `nl80211_tdls_operation` enumeration.
#[derive(Clone, Copy, Debug, PartialEq, Eq, PartialOrd, Ord, Hash, Structural)]
pub enum Nl80211TdlsOperation {
    TdlsDiscoveryReq,
    TdlsSetup,
    TdlsTeardown,
    TdlsEnableLink,
    TdlsDisableLink,
    UnrecognizedConst(u16),
}

impl Nl80211TdlsOperation {
    /// The value that a code stands for; where two names share a code, the
    /// first of them.
    pub open spec fn spec_from_code(code: u16) -> Self {
        match code {
            0 => Nl80211TdlsOperation::TdlsDiscoveryReq,
            1 => Nl80211TdlsOperation::TdlsSetup,
            2 => Nl80211TdlsOperation::TdlsTeardown,
            3 => Nl80211TdlsOperation::TdlsEnableLink,
            4 => Nl80211TdlsOperation::TdlsDisableLink,
            _ => Nl80211TdlsOperation::UnrecognizedConst(code),
        }
    }

    /// The code of a value.
    pub open spec fn spec_code(self) -> u16 {
        match self {
            Nl80211TdlsOperation::TdlsDiscoveryReq => 0,
            Nl80211TdlsOperation::TdlsSetup => 1,
            Nl80211TdlsOperation::TdlsTeardown => 2,
            Nl80211TdlsOperation::TdlsEnableLink => 3,
            Nl80211TdlsOperation::TdlsDisableLink => 4,
            Nl80211TdlsOperation::UnrecognizedConst(code) => code,
        }
    }

    /// Whether the value is none that the vocabulary names.
    pub fn is_unrecognized(&self) -> (r: bool)
        ensures
            r == (*self is UnrecognizedConst),
    {
        match self {
            Nl80211TdlsOperation::UnrecognizedConst(_) => true,
            _ => false,
        }
    }

    /// Every code is the code of the value it stands for.
    pub proof fn lemma_code_round_trip(code: u16)
        ensures
            Self::spec_from_code(code).spec_code() == code,
    {
    }
}

impl From<u16> for Nl80211TdlsOperation {
    fn from(code: u16) -> (value: Self) {
        match code {
            0 => Nl80211TdlsOperation::TdlsDiscoveryReq,
            1 => Nl80211TdlsOperation::TdlsSetup,
            2 => Nl80211TdlsOperation::TdlsTeardown,
            3 => Nl80211TdlsOperation::TdlsEnableLink,
            4 => Nl80211TdlsOperation::TdlsDisableLink,
            _ => Nl80211TdlsOperation::UnrecognizedConst(code),
        }
    }
}

impl FromSpecImpl<u16> for Nl80211TdlsOperation {
    open spec fn obeys_from_spec() -> bool {
        true
    }

    open spec fn from_spec(code: u16) -> Self {
        Self::spec_from_code(code)
    }
}

impl From<Nl80211TdlsOperation> for u16 {
    fn from(value: Nl80211TdlsOperation) -> (code: u16) {
        match value {
            Nl80211TdlsOperation::TdlsDiscoveryReq => 0,
            Nl80211TdlsOperation::TdlsSetup => 1,
            Nl80211TdlsOperation::TdlsTeardown => 2,
            Nl80211TdlsOperation::TdlsEnableLink => 3,
            Nl80211TdlsOperation::TdlsDisableLink => 4,
            Nl80211TdlsOperation::UnrecognizedConst(code) => code,
        }
    }
}

impl FromSpecImpl<Nl80211TdlsOperation> for u16 {
    open spec fn obeys_from_spec() -> bool {
        true
    }

    open spec fn from_spec(value: Nl80211TdlsOperation) -> u16 {
        value.spec_code()
    }
}

/// The kernel's `nl80211_feature_flags` enumeration.
#[derive(Clone, Copy, Debug, PartialEq, Eq, PartialOrd, Ord, Hash, Structural)]
pub enum Nl80211FeatureFlags {
    FeatureSkTxStatus,
    FeatureHtIbss,
    FeatureInactivityTimer,
    FeatureCellBaseRegHints,
    FeatureP2pDeviceNeedsChannel,
    FeatureSae,
    FeatureLowPriorityScan,
    FeatureScanFlush,
    FeatureApScan,
    FeatureVifTxpower,
    FeatureNeedObssScan,
    FeatureP2pGoCtwin,
    FeatureP2pGoOppps,
    FeatureAdvertiseChanLimits,
    FeatureFullApClientState,
    UnrecognizedConst(u16),
}

impl Nl80211FeatureFlags {
    /// The value that a code stands for; where two names share a code, the
    /// first of them.
    pub open spec fn spec_from_code(code: u16) -> Self {
        match code {
            1 => Nl80211FeatureFlags::FeatureSkTxStatus,
            2 => Nl80211FeatureFlags::FeatureHtIbss,
            4 => Nl80211FeatureFlags::FeatureInactivityTimer,
            8 => Nl80211FeatureFlags::FeatureCellBaseRegHints,
            16 => Nl80211FeatureFlags::FeatureP2pDeviceNeedsChannel,
            32 => Nl80211FeatureFlags::FeatureSae,
            64 => Nl80211FeatureFlags::FeatureLowPriorityScan,
            128 => Nl80211FeatureFlags::FeatureScanFlush,
            256 => Nl80211FeatureFlags::FeatureApScan,
            512 => Nl80211FeatureFlags::FeatureVifTxpower,
            1024 => Nl80211FeatureFlags::FeatureNeedObssScan,
            2048 => Nl80211FeatureFlags::FeatureP2pGoCtwin,
            4096 => Nl80211FeatureFlags::FeatureP2pGoOppps,
            16384 => Nl80211FeatureFlags::FeatureAdvertiseChanLimits,
            32768 => Nl80211FeatureFlags::FeatureFullApClientState,
            _ => Nl80211FeatureFlags::UnrecognizedConst(code),
        }
    }

    /// The code of a value.
    pub open spec fn spec_code(self) -> u16 {
        match self {
            Nl80211FeatureFlags::FeatureSkTxStatus => 1,
            Nl80211FeatureFlags::FeatureHtIbss => 2,
            Nl80211FeatureFlags::FeatureInactivityTimer => 4,
            Nl80211FeatureFlags::FeatureCellBaseRegHints => 8,
            Nl80211FeatureFlags::FeatureP2pDeviceNeedsChannel => 16,
            Nl80211FeatureFlags::FeatureSae => 32,
            Nl80211FeatureFlags::FeatureLowPriorityScan => 64,
            Nl80211FeatureFlags::FeatureScanFlush => 128,
            Nl80211FeatureFlags::FeatureApScan => 256,
            Nl80211FeatureFlags::FeatureVifTxpower => 512,
            Nl80211FeatureFlags::FeatureNeedObssScan => 1024,
            Nl80211FeatureFlags::FeatureP2pGoCtwin => 2048,
            Nl80211FeatureFlags::FeatureP2pGoOppps => 4096,
            Nl80211FeatureFlags::FeatureAdvertiseChanLimits => 16384,
            Nl80211FeatureFlags::FeatureFullApClientState => 32768,
            Nl80211FeatureFlags::UnrecognizedConst(code) => code,
        }
    }

    /// Whether the value is none that the vocabulary names.
    pub fn is_unrecognized(&self) -> (r: bool)
        ensures
            r == (*self is UnrecognizedConst),
    {
        match self {
            Nl80211FeatureFlags::UnrecognizedConst(_) => true,
            _ => false,
        }
    }

    /// Every code is the code of the value it stands for.
    pub proof fn lemma_code_round_trip(code: u16)
        ensures
            Self::spec_from_code(code).spec_code() == code,
    {
    }
}

impl From<u16> for Nl80211FeatureFlags {
    fn from(code: u16) -> (value: Self) {
        match code {
            1 => Nl80211FeatureFlags::FeatureSkTxStatus,
            2 => Nl80211FeatureFlags::FeatureHtIbss,
            4 => Nl80211FeatureFlags::FeatureInactivityTimer,
            8 => Nl80211FeatureFlags::FeatureCellBaseRegHints,
            16 => Nl80211FeatureFlags::FeatureP2pDeviceNeedsChannel,
            32 => Nl80211FeatureFlags::FeatureSae,
            64 => Nl80211FeatureFlags::FeatureLowPriorityScan,
            128 => Nl80211FeatureFlags::FeatureScanFlush,
            256 => Nl80211FeatureFlags::FeatureApScan,
            512 => Nl80211FeatureFlags::FeatureVifTxpower,
            1024 => Nl80211FeatureFlags::FeatureNeedObssScan,
            2048 => Nl80211FeatureFlags::FeatureP2pGoCtwin,
            4096 => Nl80211FeatureFlags::FeatureP2pGoOppps,
            16384 => Nl80211FeatureFlags::FeatureAdvertiseChanLimits,
            32768 => Nl80211FeatureFlags::FeatureFullApClientState,
            _ => Nl80211FeatureFlags::UnrecognizedConst(code),
        }
    }
}

impl FromSpecImpl<u16> for Nl80211FeatureFlags {
    open spec fn obeys_from_spec() -> bool {
        true
    }

    open spec fn from_spec(code: u16) -> Self {
        Self::spec_from_code(code)
    }
}

impl From<Nl80211FeatureFlags> for u16 {
    fn from(value: Nl80211FeatureFlags) -> (code: u16) {
        match value {
            Nl80211FeatureFlags::FeatureSkTxStatus => 1,
            Nl80211FeatureFlags::FeatureHtIbss => 2,
            Nl80211FeatureFlags::FeatureInactivityTimer => 4,
            Nl80211FeatureFlags::FeatureCellBaseRegHints => 8,
            Nl80211FeatureFlags::FeatureP2pDeviceNeedsChannel => 16,
            Nl80211FeatureFlags::FeatureSae => 32,
            Nl80211FeatureFlags::FeatureLowPriorityScan => 64,
            Nl80211FeatureFlags::FeatureScanFlush => 128,
            Nl80211FeatureFlags::FeatureApScan => 256,
            Nl80211FeatureFlags::FeatureVifTxpower => 512,
            Nl80211FeatureFlags::FeatureNeedObssScan => 1024,
            Nl80211FeatureFlags::FeatureP2pGoCtwin => 2048,
            Nl80211FeatureFlags::FeatureP2pGoOppps => 4096,
            Nl80211FeatureFlags::FeatureAdvertiseChanLimits => 16384,
            Nl80211FeatureFlags::FeatureFullApClientState => 32768,
            Nl80211FeatureFlags::UnrecognizedConst(code) => code,
        }
    }
}

impl FromSpecImpl<Nl80211FeatureFlags> for u16 {
    open spec fn obeys_from_spec() -> bool {
        true
    }

    open spec fn from_spec(value: Nl80211FeatureFlags) -> u16 {
        value.spec_code()
    }
}

/// The kernel's `nl80211_ext_feature_index` enumeration.
#[derive(Clone, Copy, Debug, PartialEq, Eq, PartialOrd, Ord, Hash, Structural)]
pub enum Nl80211ExtFeatureIndex {
    ExtFeatureVhtIbss,
    ExtFeatureRrm,
    ExtFeatureMuMimoAirSniffer,
    ExtFeatureScanStartTime,
    ExtFeatureBssParentTsf,
    ExtFeatureSetScanDwell,
    ExtFeatureBeaconRateLegacy,
    ExtFeatureBeaconRateHt,
    ExtFeatureBeaconRateVht,
    NumExtFeatures,
    MaxExtFeatures,
    UnrecognizedConst(u16),
}

impl Nl80211ExtFeatureIndex {
    /// The value that a code stands for; where two names share a code, the
    /// first of them.
    pub open spec fn spec_from_code(code: u16) -> Self {
        match code {
            0 => Nl80211ExtFeatureIndex::ExtFeatureVhtIbss,
            1 => Nl80211ExtFeatureIndex::ExtFeatureRrm,
            2 => Nl80211ExtFeatureIndex::ExtFeatureMuMimoAirSniffer,
            3 => Nl80211ExtFeatureIndex::ExtFeatureScanStartTime,
            4 => Nl80211ExtFeatureIndex::ExtFeatureBssParentTsf,
            5 => Nl80211ExtFeatureIndex::ExtFeatureSetScanDwell,
            6 => Nl80211ExtFeatureIndex::ExtFeatureBeaconRateLegacy,
            7 => Nl80211ExtFeatureIndex::ExtFeatureBeaconRateHt,
            8 => Nl80211ExtFeatureIndex::ExtFeatureBeaconRateVht,
            9 => Nl80211ExtFeatureIndex::NumExtFeatures,
            _ => Nl80211ExtFeatureIndex::UnrecognizedConst(code),
        }
    }

    /// The code of a value.
    pub open spec fn spec_code(self) -> u16 {
        match self {
            Nl80211ExtFeatureIndex::ExtFeatureVhtIbss => 0,
            Nl80211ExtFeatureIndex::ExtFeatureRrm => 1,
            Nl80211ExtFeatureIndex::ExtFeatureMuMimoAirSniffer => 2,
            Nl80211ExtFeatureIndex::ExtFeatureScanStartTime => 3,
            Nl80211ExtFeatureIndex::ExtFeatureBssParentTsf => 4,
            Nl80211ExtFeatureIndex::ExtFeatureSetScanDwell => 5,
            Nl80211ExtFeatureIndex::ExtFeatureBeaconRateLegacy => 6,
            Nl80211ExtFeatureIndex::ExtFeatureBeaconRateHt => 7,
            Nl80211ExtFeatureIndex::ExtFeatureBeaconRateVht => 8,
            Nl80211ExtFeatureIndex::NumExtFeatures => 9,
            Nl80211ExtFeatureIndex::MaxExtFeatures => 8,
            Nl80211ExtFeatureIndex::UnrecognizedConst(code) => code,
        }
    }

    /// Whether the value is none that the vocabulary names.
    pub fn is_unrecognized(&self) -> (r: bool)
        ensures
            r == (*self is UnrecognizedConst),
    {
        match self {
            Nl80211ExtFeatureIndex::UnrecognizedConst(_) => true,
            _ => false,
        }
    }

    /// Every code is the code of the value it stands for.
    pub proof fn lemma_code_round_trip(code: u16)
        ensures
            Self::spec_from_code(code).spec_code() == code,
    {
    }
}

impl From<u16> for Nl80211ExtFeatureIndex {
    fn from(code: u16) -> (value: Self) {
        match code {
            0 => Nl80211ExtFeatureIndex::ExtFeatureVhtIbss,
            1 => Nl80211ExtFeatureIndex::ExtFeatureRrm,
            2 => Nl80211ExtFeatureIndex::ExtFeatureMuMimoAirSniffer,
            3 => Nl80211ExtFeatureIndex::ExtFeatureScanStartTime,
            4 => Nl80211ExtFeatureIndex::ExtFeatureBssParentTsf,
            5 => Nl80211ExtFeatureIndex::ExtFeatureSetScanDwell,
            6 => Nl80211ExtFeatureIndex::ExtFeatureBeaconRateLegacy,
            7 => Nl80211ExtFeatureIndex::ExtFeatureBeaconRateHt,
            8 => Nl80211ExtFeatureIndex::ExtFeatureBeaconRateVht,
            9 => Nl80211ExtFeatureIndex::NumExtFeatures,
            _ => Nl80211ExtFeatureIndex::UnrecognizedConst(code),
        }
    }
}

impl FromSpecImpl<u16> for Nl80211ExtFeatureIndex {
    open spec fn obeys_from_spec() -> bool {
        true
    }

    open spec fn from_spec(code: u16) -> Self {
        Self::spec_from_code(code)
    }
}

impl From<Nl80211ExtFeatureIndex> for u16 {
    fn from(value: Nl80211ExtFeatureIndex) -> (code: u16) {
        match value {
            Nl80211ExtFeatureIndex::ExtFeatureVhtIbss => 0,
            Nl80211ExtFeatureIndex::ExtFeatureRrm => 1,
            Nl80211ExtFeatureIndex::ExtFeatureMuMimoAirSniffer => 2,
            Nl80211ExtFeatureIndex::ExtFeatureScanStartTime => 3,
            Nl80211ExtFeatureIndex::ExtFeatureBssParentTsf => 4,
            Nl80211ExtFeatureIndex::ExtFeatureSetScanDwell => 5,
            Nl80211ExtFeatureIndex::ExtFeatureBeaconRateLegacy => 6,
            Nl80211ExtFeatureIndex::ExtFeatureBeaconRateHt => 7,
            Nl80211ExtFeatureIndex::ExtFeatureBeaconRateVht => 8,
            Nl80211ExtFeatureIndex::NumExtFeatures => 9,
            Nl80211ExtFeatureIndex::MaxExtFeatures => 8,
            Nl80211ExtFeatureIndex::UnrecognizedConst(code) => code,
        }
    }
}

impl FromSpecImpl<Nl80211ExtFeatureIndex> for u16 {
    open spec fn obeys_from_spec() -> bool {
        true
    }

    open spec fn from_spec(value: Nl80211ExtFeatureIndex) -> u16 {
        value.spec_code()
    }
}

/// The kernel's `nl80211_probe_resp_offload_support_attr` enumeration.
#[derive(Clone, Copy, Debug, PartialEq, Eq, PartialOrd, Ord, Hash, Structural)]
pub enum Nl80211ProbeRespOffloadSupportAttr {
    ProbeRespOffloadSupportWps,
    ProbeRespOffloadSupportWps2,
    ProbeRespOffloadSupportP2p,
    ProbeRespOffloadSupport80211u,
    UnrecognizedConst(u16),
}

impl Nl80211ProbeRespOffloadSupportAttr {
    /// The value that a code stands for; where two names share a code, the
    /// first of them.
    pub open spec fn spec_from_code(code: u16) -> Self {
        match code {
            1 => Nl80211ProbeRespOffloadSupportAttr::ProbeRespOffloadSupportWps,
            2 => Nl80211ProbeRespOffloadSupportAttr::ProbeRespOffloadSupportWps2,
            4 => Nl80211ProbeRespOffloadSupportAttr::ProbeRespOffloadSupportP2p,
            8 => Nl80211ProbeRespOffloadSupportAttr::ProbeRespOffloadSupport80211u,
            _ => Nl80211ProbeRespOffloadSupportAttr::UnrecognizedConst(code),
        }
    }

    /// The code of a value.
    pub open spec fn spec_code(self) -> u16 {
        match self {
            Nl80211ProbeRespOffloadSupportAttr::ProbeRespOffloadSupportWps => 1,
            Nl80211ProbeRespOffloadSupportAttr::ProbeRespOffloadSupportWps2 => 2,
            Nl80211ProbeRespOffloadSupportAttr::ProbeRespOffloadSupportP2p => 4,
            Nl80211ProbeRespOffloadSupportAttr::ProbeRespOffloadSupport80211u => 8,
            Nl80211ProbeRespOffloadSupportAttr::UnrecognizedConst(code) => code,
        }
    }

    /// Whether the value is none that the vocabulary names.
    pub fn is_unrecognized(&self) -> (r: bool)
        ensures
            r == (*self is UnrecognizedConst),
    {
        match self {
            Nl80211ProbeRespOffloadSupportAttr::UnrecognizedConst(_) => true,
            _ => false,
        }
    }

    /// Every code is the code of the value it stands for.
    pub proof fn lemma_code_round_trip(code: u16)
        ensures
            Self::spec_from_code(code).spec_code() == code,
    {
    }
}

impl From<u16> for Nl80211ProbeRespOffloadSupportAttr {
    fn from(code: u16) -> (value: Self) {
        match code {
            1 => Nl80211ProbeRespOffloadSupportAttr::ProbeRespOffloadSupportWps,
            2 => Nl80211ProbeRespOffloadSupportAttr::ProbeRespOffloadSupportWps2,
            4 => Nl80211ProbeRespOffloadSupportAttr::ProbeRespOffloadSupportP2p,
            8 => Nl80211ProbeRespOffloadSupportAttr::ProbeRespOffloadSupport80211u,
            _ => Nl80211ProbeRespOffloadSupportAttr::UnrecognizedConst(code),
        }
    }
}

impl FromSpecImpl<u16> for Nl80211ProbeRespOffloadSupportAttr {
    open spec fn obeys_from_spec() -> bool {
        true
    }

    open spec fn from_spec(code: u16) -> Self {
        Self::spec_from_code(code)
    }
}

impl From<Nl80211ProbeRespOffloadSupportAttr> for u16 {
    fn from(value: Nl80211ProbeRespOffloadSupportAttr) -> (code: u16) {
        match value {
            Nl80211ProbeRespOffloadSupportAttr::ProbeRespOffloadSupportWps => 1,
            Nl80211ProbeRespOffloadSupportAttr::ProbeRespOffloadSupportWps2 => 2,
            Nl80211ProbeRespOffloadSupportAttr::ProbeRespOffloadSupportP2p => 4,
            Nl80211ProbeRespOffloadSupportAttr::ProbeRespOffloadSupport80211u => 8,
            Nl80211ProbeRespOffloadSupportAttr::UnrecognizedConst(code) => code,
        }
    }
}

impl FromSpecImpl<Nl80211ProbeRespOffloadSupportAttr> for u16 {
    open spec fn obeys_from_spec() -> bool {
        true
    }

    open spec fn from_spec(value: Nl80211ProbeRespOffloadSupportAttr) -> u16 {
        value.spec_code()
    }
}

/// The kernel's `nl80211_connect_failed_reason` enumeration.
#[derive(Clone, Copy, Debug, PartialEq, Eq, PartialOrd, Ord, Hash, Structural)]
pub enum Nl80211ConnectFailedReason {
    ConnFailMaxClients,
    ConnFailBlockedClient,
    UnrecognizedConst(u16),
}

impl Nl80211ConnectFailedReason {
    /// The value that a code stands for; where two names share a code, the
    /// first of them.
    pub open spec fn spec_from_code(code: u16) -> Self {
        match code {
            0 => Nl80211ConnectFailedReason::ConnFailMaxClients,
            1 => Nl80211ConnectFailedReason::ConnFailBlockedClient,
            _ => Nl80211ConnectFailedReason::UnrecognizedConst(code),
        }
    }

    /// The code of a value.
    pub open spec fn spec_code(self) -> u16 {
        match self {
            Nl80211ConnectFailedReason::ConnFailMaxClients => 0,
            Nl80211ConnectFailedReason::ConnFailBlockedClient => 1,
            Nl80211ConnectFailedReason::UnrecognizedConst(code) => code,
        }
    }

    /// Whether the value is none that the vocabulary names.
    pub fn is_unrecognized(&self) -> (r: bool)
        ensures
            r == (*self is UnrecognizedConst),
    {
        match self {
            Nl80211ConnectFailedReason::UnrecognizedConst(_) => true,
            _ => false,
        }
    }

    /// Every code is the code of the value it stands for.
    pub proof fn lemma_code_round_trip(code: u16)
        ensures
            Self::spec_from_code(code).spec_code() == code,
    {
    }
}

impl From<u16> for Nl80211ConnectFailedReason {
    fn from(code: u16) -> (value: Self) {
        match code {
            0 => Nl80211ConnectFailedReason::ConnFailMaxClients,
            1 => Nl80211ConnectFailedReason::ConnFailBlockedClient,
            _ => Nl80211ConnectFailedReason::UnrecognizedConst(code),
        }
    }
}

impl FromSpecImpl<u16> for Nl80211ConnectFailedReason {
    open spec fn obeys_from_spec() -> bool {
        true
    }

    open spec fn from_spec(code: u16) -> Self {
        Self::spec_from_code(code)
    }
}

impl From<Nl80211ConnectFailedReason> for u16 {
    fn from(value: Nl80211ConnectFailedReason) -> (code: u16) {
        match value {
            Nl80211ConnectFailedReason::ConnFailMaxClients => 0,
            Nl80211ConnectFailedReason::ConnFailBlockedClient => 1,
            Nl80211ConnectFailedReason::UnrecognizedConst(code) => code,
        }
    }
}

impl FromSpecImpl<Nl80211ConnectFailedReason> for u16 {
    open spec fn obeys_from_spec() -> bool {
        true
    }

    open spec fn from_spec(value: Nl80211ConnectFailedReason) -> u16 {
        value.spec_code()
    }
}

/// The kernel's `nl80211_scan_flags` enumeration.
#[derive(Clone, Copy, Debug, PartialEq, Eq, PartialOrd, Ord, Hash, Structural)]
pub enum Nl80211ScanFlags {
    ScanFlagLowPriority,
    ScanFlagFlush,
    ScanFlagAp,
    ScanFlagRandomAddr,
    UnrecognizedConst(u16),
}

impl Nl80211ScanFlags {
    /// The value that a code stands for; where two names share a code, the
    /// first of them.
    pub open spec fn spec_from_code(code: u16) -> Self {
        match code {
            1 => Nl80211ScanFlags::ScanFlagLowPriority,
            2 => Nl80211ScanFlags::ScanFlagFlush,
            4 => Nl80211ScanFlags::ScanFlagAp,
            8 => Nl80211ScanFlags::ScanFlagRandomAddr,
            _ => Nl80211ScanFlags::UnrecognizedConst(code),
        }
    }

    /// The code of a value.
    pub open spec fn spec_code(self) -> u16 {
        match self {
            Nl80211ScanFlags::ScanFlagLowPriority => 1,
            Nl80211ScanFlags::ScanFlagFlush => 2,
            Nl80211ScanFlags::ScanFlagAp => 4,
            Nl80211ScanFlags::ScanFlagRandomAddr => 8,
            Nl80211ScanFlags::UnrecognizedConst(code) => code,
        }
    }

    /// Whether the value is none that the vocabulary names.
    pub fn is_unrecognized(&self) -> (r: bool)
        ensures
            r == (*self is UnrecognizedConst),
    {
        match self {
            Nl80211ScanFlags::UnrecognizedConst(_) => true,
            _ => false,
        }
    }

    /// Every code is the code of the value it stands for.
    pub proof fn lemma_code_round_trip(code: u16)
        ensures
            Self::spec_from_code(code).spec_code() == code,
    {
    }
}

impl From<u16> for Nl80211ScanFlags {
    fn from(code: u16) -> (value: Self) {
        match code {
            1 => Nl80211ScanFlags::ScanFlagLowPriority,
            2 => Nl80211ScanFlags::ScanFlagFlush,
            4 => Nl80211ScanFlags::ScanFlagAp,
            8 => Nl80211ScanFlags::ScanFlagRandomAddr,
            _ => Nl80211ScanFlags::UnrecognizedConst(code),
        }
    }
}

impl FromSpecImpl<u16> for Nl80211ScanFlags {
    open spec fn obeys_from_spec() -> bool {
        true
    }

    open spec fn from_spec(code: u16) -> Self {
        Self::spec_from_code(code)
    }
}

impl From<Nl80211ScanFlags> for u16 {
    fn from(value: Nl80211ScanFlags) -> (code: u16) {
        match value {
            Nl80211ScanFlags::ScanFlagLowPriority => 1,
            Nl80211ScanFlags::ScanFlagFlush => 2,
            Nl80211ScanFlags::ScanFlagAp => 4,
            Nl80211ScanFlags::ScanFlagRandomAddr => 8,
            Nl80211ScanFlags::UnrecognizedConst(code) => code,
        }
    }
}

impl FromSpecImpl<Nl80211ScanFlags> for u16 {
    open spec fn obeys_from_spec() -> bool {
        true
    }

    open spec fn from_spec(value: Nl80211ScanFlags) -> u16 {
        value.spec_code()
    }
}

/// The kernel's `nl80211_acl_policy` enumeration.
#[derive(Clone, Copy, Debug, PartialEq, Eq, PartialOrd, Ord, Hash, Structural)]
pub enum Nl80211AclPolicy {
    AclPolicyAcceptUnlessListed,
    AclPolicyDenyUnlessListed,
    UnrecognizedConst(u16),
}

impl Nl80211AclPolicy {
    /// The value that a code stands for; where two names share a code, the
    /// first of them.
    pub open spec fn spec_from_code(code: u16) -> Self {
        match code {
            0 => Nl80211AclPolicy::AclPolicyAcceptUnlessListed,
            1 => Nl80211AclPolicy::AclPolicyDenyUnlessListed,
            _ => Nl80211AclPolicy::UnrecognizedConst(code),
        }
    }

    /// The code of a value.
    pub open spec fn spec_code(self) -> u16 {
        match self {
            Nl80211AclPolicy::AclPolicyAcceptUnlessListed => 0,
            Nl80211AclPolicy::AclPolicyDenyUnlessListed => 1,
            Nl80211AclPolicy::UnrecognizedConst(code) => code,
        }
    }

    /// Whether the value is none that the vocabulary names.
    pub fn is_unrecognized(&self) -> (r: bool)
        ensures
            r == (*self is UnrecognizedConst),
    {
        match self {
            Nl80211AclPolicy::UnrecognizedConst(_) => true,
            _ => false,
        }
    }

    /// Every code is the code of the value it stands for.
    pub proof fn lemma_code_round_trip(code: u16)
        ensures
            Self::spec_from_code(code).spec_code() == code,
    {
    }
}

impl From<u16> for Nl80211AclPolicy {
    fn from(code: u16) -> (value: Self) {
        match code {
            0 => Nl80211AclPolicy::AclPolicyAcceptUnlessListed,
            1 => Nl80211AclPolicy::AclPolicyDenyUnlessListed,
            _ => Nl80211AclPolicy::UnrecognizedConst(code),
        }
    }
}

impl FromSpecImpl<u16> for Nl80211AclPolicy {
    open spec fn obeys_from_spec() -> bool {
        true
    }

    open spec fn from_spec(code: u16) -> Self {
        Self::spec_from_code(code)
    }
}

impl From<Nl80211AclPolicy> for u16 {
    fn from(value: Nl80211AclPolicy) -> (code: u16) {
        match value {
            Nl80211AclPolicy::AclPolicyAcceptUnlessListed => 0,
            Nl80211AclPolicy::AclPolicyDenyUnlessListed => 1,
            Nl80211AclPolicy::UnrecognizedConst(code) => code,
        }
    }
}

impl FromSpecImpl<Nl80211AclPolicy> for u16 {
    open spec fn obeys_from_spec() -> bool {
        true
    }

    open spec fn from_spec(value: Nl80211AclPolicy) -> u16 {
        value.spec_code()
    }
}

/// The kernel's `nl80211_smps_mode` enumeration.
#[derive(Clone, Copy, Debug, PartialEq, Eq, PartialOrd, Ord, Hash, Structural)]
pub enum Nl80211SmpsMode {
    SmpsOff,
    SmpsStatic,
    SmpsDynamic,
    SmpsAfterLast,
    SmpsMax,
    UnrecognizedConst(u16),
}

impl Nl80211SmpsMode {
    /// The value that a code stands for; where two names share a code, the
    /// first of them.
    pub open spec fn spec_from_code(code: u16) -> Self {
        match code {
            0 => Nl80211SmpsMode::SmpsOff,
            1 => Nl80211SmpsMode::SmpsStatic,
            2 => Nl80211SmpsMode::SmpsDynamic,
            3 => Nl80211SmpsMode::SmpsAfterLast,
            _ => Nl80211SmpsMode::UnrecognizedConst(code),
        }
    }

    /// The code of a value.
    pub open spec fn spec_code(self) -> u16 {
        match self {
            Nl80211SmpsMode::SmpsOff => 0,
            Nl80211SmpsMode::SmpsStatic => 1,
            Nl80211SmpsMode::SmpsDynamic => 2,
            Nl80211SmpsMode::SmpsAfterLast => 3,
            Nl80211SmpsMode::SmpsMax => 2,
            Nl80211SmpsMode::UnrecognizedConst(code) => code,
        }
    }

    /// Whether the value is none that the vocabulary names.
    pub fn is_unrecognized(&self) -> (r: bool)
        ensures
            r == (*self is UnrecognizedConst),
    {
        match self {
            Nl80211SmpsMode::UnrecognizedConst(_) => true,
            _ => false,
        }
    }

    /// Every code is the code of the value it stands for.
    pub proof fn lemma_code_round_trip(code: u16)
        ensures
            Self::spec_from_code(code).spec_code() == code,
    {
    }
}

impl From<u16> for Nl80211SmpsMode {
    fn from(code: u16) -> (value: Self) {
        match code {
            0 => Nl80211SmpsMode::SmpsOff,
            1 => Nl80211SmpsMode::SmpsStatic,
            2 => Nl80211SmpsMode::SmpsDynamic,
            3 => Nl80211SmpsMode::SmpsAfterLast,
            _ => Nl80211SmpsMode::UnrecognizedConst(code),
        }
    }
}

impl FromSpecImpl<u16> for Nl80211SmpsMode {
    open spec fn obeys_from_spec() -> bool {
        true
    }

    open spec fn from_spec(code: u16) -> Self {
        Self::spec_from_code(code)
    }
}

impl From<Nl80211SmpsMode> for u16 {
    fn from(value: Nl80211SmpsMode) -> (code: u16) {
        match value {
            Nl80211SmpsMode::SmpsOff => 0,
            Nl80211SmpsMode::SmpsStatic => 1,
            Nl80211SmpsMode::SmpsDynamic => 2,
            Nl80211SmpsMode::SmpsAfterLast => 3,
            Nl80211SmpsMode::SmpsMax => 2,
            Nl80211SmpsMode::UnrecognizedConst(code) => code,
        }
    }
}

impl FromSpecImpl<Nl80211SmpsMode> for u16 {
    open spec fn obeys_from_spec() -> bool {
        true
    }

    open spec fn from_spec(value: Nl80211SmpsMode) -> u16 {
        value.spec_code()
    }
}

/// The kernel's `nl80211_radar_event` enumeration.
#[derive(Clone, Copy, Debug, PartialEq, Eq, PartialOrd, Ord, Hash, Structural)]
pub enum Nl80211RadarEvent {
    RadarDetected,
    RadarCacFinished,
    RadarCacAborted,
    RadarNopFinished,
    UnrecognizedConst(u16),
}

impl Nl80211RadarEvent {
    /// The value that a code stands for; where two names share a code, the
    /// first of them.
    pub open spec fn spec_from_code(code: u16) -> Self {
        match code {
            0 => Nl80211RadarEvent::RadarDetected,
            1 => Nl80211RadarEvent::RadarCacFinished,
            2 => Nl80211RadarEvent::RadarCacAborted,
            3 => Nl80211RadarEvent::RadarNopFinished,
            _ => Nl80211RadarEvent::UnrecognizedConst(code),
        }
    }

    /// The code of a value.
    pub open spec fn spec_code(self) -> u16 {
        match self {
            Nl80211RadarEvent::RadarDetected => 0,
            Nl80211RadarEvent::RadarCacFinished => 1,
            Nl80211RadarEvent::RadarCacAborted => 2,
            Nl80211RadarEvent::RadarNopFinished => 3,
            Nl80211RadarEvent::UnrecognizedConst(code) => code,
        }
    }

    /// Whether the value is none that the vocabulary names.
    pub fn is_unrecognized(&self) -> (r: bool)
        ensures
            r == (*self is UnrecognizedConst),
    {
        match self {
            Nl80211RadarEvent::UnrecognizedConst(_) => true,
            _ => false,
        }
    }

    /// Every code is the code of the value it stands for.
    pub proof fn lemma_code_round_trip(code: u16)
        ensures
            Self::spec_from_code(code).spec_code() == code,
    {
    }
}

impl From<u16> for Nl80211RadarEvent {
    fn from(code: u16) -> (value: Self) {
        match code {
            0 => Nl80211RadarEvent::RadarDetected,
            1 => Nl80211RadarEvent::RadarCacFinished,
            2 => Nl80211RadarEvent::RadarCacAborted,
            3 => Nl80211RadarEvent::RadarNopFinished,
            _ => Nl80211RadarEvent::UnrecognizedConst(code),
        }
    }
}

impl FromSpecImpl<u16> for Nl80211RadarEvent {
    open spec fn obeys_from_spec() -> bool {
        true
    }

    open spec fn from_spec(code: u16) -> Self {
        Self::spec_from_code(code)
    }
}

impl From<Nl80211RadarEvent> for u16 {
    fn from(value: Nl80211RadarEvent) -> (code: u16) {
        match value {
            Nl80211RadarEvent::RadarDetected => 0,
            Nl80211RadarEvent::RadarCacFinished => 1,
            Nl80211RadarEvent::RadarCacAborted => 2,
            Nl80211RadarEvent::RadarNopFinished => 3,
            Nl80211RadarEvent::UnrecognizedConst(code) => code,
        }
    }
}

impl FromSpecImpl<Nl80211RadarEvent> for u16 {
    open spec fn obeys_from_spec() -> bool {
        true
    }

    open spec fn from_spec(value: Nl80211RadarEvent) -> u16 {
        value.spec_code()
    }
}

/// The kernel's `nl80211_dfs_state` enumeration.
#[derive(Clone, Copy, Debug, PartialEq, Eq, PartialOrd, Ord, Hash, Structural)]
pub enum Nl80211DfsState {
    DfsUsable,
    DfsUnavailable,
    DfsAvailable,
    UnrecognizedConst(u16),
}

impl Nl80211DfsState {
    /// The value that a code stands for; where two names share a code, the
    /// first of them.
    pub open spec fn spec_from_code(code: u16) -> Self {
        match code {
            0 => Nl80211DfsState::DfsUsable,
            1 => Nl80211DfsState::DfsUnavailable,
            2 => Nl80211DfsState::DfsAvailable,
            _ => Nl80211DfsState::UnrecognizedConst(code),
        }
    }

    /// The code of a value.
    pub open spec fn spec_code(self) -> u16 {
        match self {
            Nl80211DfsState::DfsUsable => 0,
            Nl80211DfsState::DfsUnavailable => 1,
            Nl80211DfsState::DfsAvailable => 2,
            Nl80211DfsState::UnrecognizedConst(code) => code,
        }
    }

    /// Whether the value is none that the vocabulary names.
    pub fn is_unrecognized(&self) -> (r: bool)
        ensures
            r == (*self is UnrecognizedConst),
    {
        match self {
            Nl80211DfsState::UnrecognizedConst(_) => true,
            _ => false,
        }
    }

    /// Every code is the code of the value it stands for.
    pub proof fn lemma_code_round_trip(code: u16)
        ensures
            Self::spec_from_code(code).spec_code() == code,
    {
    }
}

impl From<u16> for Nl80211DfsState {
    fn from(code: u16) -> (value: Self) {
        match code {
            0 => Nl80211DfsState::DfsUsable,
            1 => Nl80211DfsState::DfsUnavailable,
            2 => Nl80211DfsState::DfsAvailable,
            _ => Nl80211DfsState::UnrecognizedConst(code),
        }
    }
}

impl FromSpecImpl<u16> for Nl80211DfsState {
    open spec fn obeys_from_spec() -> bool {
        true
    }

    open spec fn from_spec(code: u16) -> Self {
        Self::spec_from_code(code)
    }
}

impl From<Nl80211DfsState> for u16 {
    fn from(value: Nl80211DfsState) -> (code: u16) {
        match value {
            Nl80211DfsState::DfsUsable => 0,
            Nl80211DfsState::DfsUnavailable => 1,
            Nl80211DfsState::DfsAvailable => 2,
            Nl80211DfsState::UnrecognizedConst(code) => code,
        }
    }
}

impl FromSpecImpl<Nl80211DfsState> for u16 {
    open spec fn obeys_from_spec() -> bool {
        true
    }

    open spec fn from_spec(value: Nl80211DfsState) -> u16 {
        value.spec_code()
    }
}

/// The kernel's `nl80211_protocol_features` enumeration.
#[derive(Clone, Copy, Debug, PartialEq, Eq, PartialOrd, Ord, Hash, Structural)]
pub enum Nl80211ProtocolFeatures {
    ProtocolFeatureSplitWiphyDump,
    UnrecognizedConst(u16),
}

impl Nl80211ProtocolFeatures {
    /// The value that a code stands for; where two names share a code, the
    /// first of them.
    pub open spec fn spec_from_code(code: u16) -> Self {
        match code {
            1 => Nl80211ProtocolFeatures::ProtocolFeatureSplitWiphyDump,
            _ => Nl80211ProtocolFeatures::UnrecognizedConst(code),
        }
    }

    /// The code of a value.
    pub open spec fn spec_code(self) -> u16 {
        match self {
            Nl80211ProtocolFeatures::ProtocolFeatureSplitWiphyDump => 1,
            Nl80211ProtocolFeatures::UnrecognizedConst(code) => code,
        }
    }

    /// Whether the value is none that the vocabulary names.
    pub fn is_unrecognized(&self) -> (r: bool)
        ensures
            r == (*self is UnrecognizedConst),
    {
        match self {
            Nl80211ProtocolFeatures::UnrecognizedConst(_) => true,
            _ => false,
        }
    }

    /// Every code is the code of the value it stands for.
    pub proof fn lemma_code_round_trip(code: u16)
        ensures
            Self::spec_from_code(code).spec_code() == code,
    {
    }
}

impl From<u16> for Nl80211ProtocolFeatures {
    fn from(code: u16) -> (value: Self) {
        match code {
            1 => Nl80211ProtocolFeatures::ProtocolFeatureSplitWiphyDump,
            _ => Nl80211ProtocolFeatures::UnrecognizedConst(code),
        }
    }
}

impl FromSpecImpl<u16> for Nl80211ProtocolFeatures {
    open spec fn obeys_from_spec() -> bool {
        true
    }

    open spec fn from_spec(code: u16) -> Self {
        Self::spec_from_code(code)
    }
}

impl From<Nl80211ProtocolFeatures> for u16 {
    fn from(value: Nl80211ProtocolFeatures) -> (code: u16) {
        match value {
            Nl80211ProtocolFeatures::ProtocolFeatureSplitWiphyDump => 1,
            Nl80211ProtocolFeatures::UnrecognizedConst(code) => code,
        }
    }
}

impl FromSpecImpl<Nl80211ProtocolFeatures> for u16 {
    open spec fn obeys_from_spec() -> bool {
        true
    }

    open spec fn from_spec(value: Nl80211ProtocolFeatures) -> u16 {
        value.spec_code()
    }
}

/// The kernel's `nl80211_crit_proto_id` enumeration.
#[derive(Clone, Copy, Debug, PartialEq, Eq, PartialOrd, Ord, Hash, Structural)]
pub enum Nl80211CritProtoId {
    CritProtoUnspec,
    CritProtoDhcp,
    CritProtoEapol,
    CritProtoApipa,
    NumCritProto,
    UnrecognizedConst(u16),
}

impl Nl80211CritProtoId {
    /// The value that a code stands for; where two names share a code, the
    /// first of them.
    pub open spec fn spec_from_code(code: u16) -> Self {
        match code {
            0 => Nl80211CritProtoId::CritProtoUnspec,
            1 => Nl80211CritProtoId::CritProtoDhcp,
            2 => Nl80211CritProtoId::CritProtoEapol,
            3 => Nl80211CritProtoId::CritProtoApipa,
            4 => Nl80211CritProtoId::NumCritProto,
            _ => Nl80211CritProtoId::UnrecognizedConst(code),
        }
    }

    /// The code of a value.
    pub open spec fn spec_code(self) -> u16 {
        match self {
            Nl80211CritProtoId::CritProtoUnspec => 0,
            Nl80211CritProtoId::CritProtoDhcp => 1,
            Nl80211CritProtoId::CritProtoEapol => 2,
            Nl80211CritProtoId::CritProtoApipa => 3,
            Nl80211CritProtoId::NumCritProto => 4,
            Nl80211CritProtoId::UnrecognizedConst(code) => code,
        }
    }

    /// Whether the value is none that the vocabulary names.
    pub fn is_unrecognized(&self) -> (r: bool)
        ensures
            r == (*self is UnrecognizedConst),
    {
        match self {
            Nl80211CritProtoId::UnrecognizedConst(_) => true,
            _ => false,
        }
    }

    /// Every code is the code of the value it stands for.
    pub proof fn lemma_code_round_trip(code: u16)
        ensures
            Self::spec_from_code(code).spec_code() == code,
    {
    }
}

impl From<u16> for Nl80211CritProtoId {
    fn from(code: u16) -> (value: Self) {
        match code {
            0 => Nl80211CritProtoId::CritProtoUnspec,
            1 => Nl80211CritProtoId::CritProtoDhcp,
            2 => Nl80211CritProtoId::CritProtoEapol,
            3 => Nl80211CritProtoId::CritProtoApipa,
            4 => Nl80211CritProtoId::NumCritProto,
            _ => Nl80211CritProtoId::UnrecognizedConst(code),
        }
    }
}

impl FromSpecImpl<u16> for Nl80211CritProtoId {
    open spec fn obeys_from_spec() -> bool {
        true
    }

    open spec fn from_spec(code: u16) -> Self {
        Self::spec_from_code(code)
    }
}

impl From<Nl80211CritProtoId> for u16 {
    fn from(value: Nl80211CritProtoId) -> (code: u16) {
        match value {
            Nl80211CritProtoId::CritProtoUnspec => 0,
            Nl80211CritProtoId::CritProtoDhcp => 1,
            Nl80211CritProtoId::CritProtoEapol => 2,
            Nl80211CritProtoId::CritProtoApipa => 3,
            Nl80211CritProtoId::NumCritProto => 4,
            Nl80211CritProtoId::UnrecognizedConst(code) => code,
        }
    }
}

impl FromSpecImpl<Nl80211CritProtoId> for u16 {
    open spec fn obeys_from_spec() -> bool {
        true
    }

    open spec fn from_spec(value: Nl80211CritProtoId) -> u16 {
        value.spec_code()
    }
}

/// The kernel's `nl80211_rxmgmt_flags` enumeration.
#[derive(Clone, Copy, Debug, PartialEq, Eq, PartialOrd, Ord, Hash, Structural)]
pub enum Nl80211RxmgmtFlags {
    RxmgmtFlagAnswered,
    UnrecognizedConst(u16),
}

impl Nl80211RxmgmtFlags {
    /// The value that a code stands for; where two names share a code, the
    /// first of them.
    pub open spec fn spec_from_code(code: u16) -> Self {
        match code {
            1 => Nl80211RxmgmtFlags::RxmgmtFlagAnswered,
            _ => Nl80211RxmgmtFlags::UnrecognizedConst(code),
        }
    }

    /// The code of a value.
    pub open spec fn spec_code(self) -> u16 {
        match self {
            Nl80211RxmgmtFlags::RxmgmtFlagAnswered => 1,
            Nl80211RxmgmtFlags::UnrecognizedConst(code) => code,
        }
    }

    /// Whether the value is none that the vocabulary names.
    pub fn is_unrecognized(&self) -> (r: bool)
        ensures
            r == (*self is UnrecognizedConst),
    {
        match self {
            Nl80211RxmgmtFlags::UnrecognizedConst(_) => true,
            _ => false,
        }
    }

    /// Every code is the code of the value it stands for.
    pub proof fn lemma_code_round_trip(code: u16)
        ensures
            Self::spec_from_code(code).spec_code() == code,
    {
    }
}

impl From<u16> for Nl80211RxmgmtFlags {
    fn from(code: u16) -> (value: Self) {
        match code {
            1 => Nl80211RxmgmtFlags::RxmgmtFlagAnswered,
            _ => Nl80211RxmgmtFlags::UnrecognizedConst(code),
        }
    }
}

impl FromSpecImpl<u16> for Nl80211RxmgmtFlags {
    open spec fn obeys_from_spec() -> bool {
        true
    }

    open spec fn from_spec(code: u16) -> Self {
        Self::spec_from_code(code)
    }
}

impl From<Nl80211RxmgmtFlags> for u16 {
    fn from(value: Nl80211RxmgmtFlags) -> (code: u16) {
        match value {
            Nl80211RxmgmtFlags::RxmgmtFlagAnswered => 1,
            Nl80211RxmgmtFlags::UnrecognizedConst(code) => code,
        }
    }
}

impl FromSpecImpl<Nl80211RxmgmtFlags> for u16 {
    open spec fn obeys_from_spec() -> bool {
        true
    }

    open spec fn from_spec(value: Nl80211RxmgmtFlags) -> u16 {
        value.spec_code()
    }
}

/// The kernel's `nl80211_tdls_peer_capability` enumeration.
#[derive(Clone, Copy, Debug, PartialEq, Eq, PartialOrd, Ord, Hash, Structural)]
pub enum Nl80211TdlsPeerCapability {
    TdlsPeerHt,
    TdlsPeerVht,
    TdlsPeerWmm,
    UnrecognizedConst(u16),
}

impl Nl80211TdlsPeerCapability {
    /// The value that a code stands for; where two names share a code, the
    /// first of them.
    pub open spec fn spec_from_code(code: u16) -> Self {
        match code {
            1 => Nl80211TdlsPeerCapability::TdlsPeerHt,
            2 => Nl80211TdlsPeerCapability::TdlsPeerVht,
            4 => Nl80211TdlsPeerCapability::TdlsPeerWmm,
            _ => Nl80211TdlsPeerCapability::UnrecognizedConst(code),
        }
    }

    /// The code of a value.
    pub open spec fn spec_code(self) -> u16 {
        match self {
            Nl80211TdlsPeerCapability::TdlsPeerHt => 1,
            Nl80211TdlsPeerCapability::TdlsPeerVht => 2,
            Nl80211TdlsPeerCapability::TdlsPeerWmm => 4,
            Nl80211TdlsPeerCapability::UnrecognizedConst(code) => code,
        }
    }

    /// Whether the value is none that the vocabulary names.
    pub fn is_unrecognized(&self) -> (r: bool)
        ensures
            r == (*self is UnrecognizedConst),
    {
        match self {
            Nl80211TdlsPeerCapability::UnrecognizedConst(_) => true,
            _ => false,
        }
    }

    /// Every code is the code of the value it stands for.
    pub proof fn lemma_code_round_trip(code: u16)
        ensures
            Self::spec_from_code(code).spec_code() == code,
    {
    }
}

impl From<u16> for Nl80211TdlsPeerCapability {
    fn from(code: u16) -> (value: Self) {
        match code {
            1 => Nl80211TdlsPeerCapability::TdlsPeerHt,
            2 => Nl80211TdlsPeerCapability::TdlsPeerVht,
            4 => Nl80211TdlsPeerCapability::TdlsPeerWmm,
            _ => Nl80211TdlsPeerCapability::UnrecognizedConst(code),
        }
    }
}

impl FromSpecImpl<u16> for Nl80211TdlsPeerCapability {
    open spec fn obeys_from_spec() -> bool {
        true
    }

    open spec fn from_spec(code: u16) -> Self {
        Self::spec_from_code(code)
    }
}

impl From<Nl80211TdlsPeerCapability> for u16 {
    fn from(value: Nl80211TdlsPeerCapability) -> (code: u16) {
        match value {
            Nl80211TdlsPeerCapability::TdlsPeerHt => 1,
            Nl80211TdlsPeerCapability::TdlsPeerVht => 2,
            Nl80211TdlsPeerCapability::TdlsPeerWmm => 4,
            Nl80211TdlsPeerCapability::UnrecognizedConst(code) => code,
        }
    }
}

impl FromSpecImpl<Nl80211TdlsPeerCapability> for u16 {
    open spec fn obeys_from_spec() -> bool {
        true
    }

    open spec fn from_spec(value: Nl80211TdlsPeerCapability) -> u16 {
        value.spec_code()
    }
}

/// The kernel's `nl80211_sched_scan_plan` enumeration.
#[derive(Clone, Copy, Debug, PartialEq, Eq, PartialOrd, Ord, Hash, Structural)]
pub enum Nl80211SchedScanPlan {
    SchedScanPlanInvalid,
    SchedScanPlanInterval,
    SchedScanPlanIterations,
    SchedScanPlanAfterLast,
    SchedScanPlanMax,
    UnrecognizedConst(u16),
}

impl Nl80211SchedScanPlan {
    /// The value that a code stands for; where two names share a code, the
    /// first of them.
    pub open spec fn spec_from_code(code: u16) -> Self {
        match code {
            0 => Nl80211SchedScanPlan::SchedScanPlanInvalid,
            1 => Nl80211SchedScanPlan::SchedScanPlanInterval,
            2 => Nl80211SchedScanPlan::SchedScanPlanIterations,
            3 => Nl80211SchedScanPlan::SchedScanPlanAfterLast,
            _ => Nl80211SchedScanPlan::UnrecognizedConst(code),
        }
    }

    /// The code of a value.
    pub open spec fn spec_code(self) -> u16 {
        match self {
            Nl80211SchedScanPlan::SchedScanPlanInvalid => 0,
            Nl80211SchedScanPlan::SchedScanPlanInterval => 1,
            Nl80211SchedScanPlan::SchedScanPlanIterations => 2,
            Nl80211SchedScanPlan::SchedScanPlanAfterLast => 3,
            Nl80211SchedScanPlan::SchedScanPlanMax => 2,
            Nl80211SchedScanPlan::UnrecognizedConst(code) => code,
        }
    }

    /// Whether the value is none that the vocabulary names.
    pub fn is_unrecognized(&self) -> (r: bool)
        ensures
            r == (*self is UnrecognizedConst),
    {
        match self {
            Nl80211SchedScanPlan::UnrecognizedConst(_) => true,
            _ => false,
        }
    }

    /// Every code is the code of the value it stands for.
    pub proof fn lemma_code_round_trip(code: u16)
        ensures
            Self::spec_from_code(code).spec_code() == code,
    {
    }
}

impl From<u16> for Nl80211SchedScanPlan {
    fn from(code: u16) -> (value: Self) {
        match code {
            0 => Nl80211SchedScanPlan::SchedScanPlanInvalid,
            1 => Nl80211SchedScanPlan::SchedScanPlanInterval,
            2 => Nl80211SchedScanPlan::SchedScanPlanIterations,
            3 => Nl80211SchedScanPlan::SchedScanPlanAfterLast,
            _ => Nl80211SchedScanPlan::UnrecognizedConst(code),
        }
    }
}

impl FromSpecImpl<u16> for Nl80211SchedScanPlan {
    open spec fn obeys_from_spec() -> bool {
        true
    }

    open spec fn from_spec(code: u16) -> Self {
        Self::spec_from_code(code)
    }
}

impl From<Nl80211SchedScanPlan> for u16 {
    fn from(value: Nl80211SchedScanPlan) -> (code: u16) {
        match value {
            Nl80211SchedScanPlan::SchedScanPlanInvalid => 0,
            Nl80211SchedScanPlan::SchedScanPlanInterval => 1,
            Nl80211SchedScanPlan::SchedScanPlanIterations => 2,
            Nl80211SchedScanPlan::SchedScanPlanAfterLast => 3,
            Nl80211SchedScanPlan::SchedScanPlanMax => 2,
            Nl80211SchedScanPlan::UnrecognizedConst(code) => code,
        }
    }
}

impl FromSpecImpl<Nl80211SchedScanPlan> for u16 {
    open spec fn obeys_from_spec() -> bool {
        true
    }

    open spec fn from_spec(value: Nl80211SchedScanPlan) -> u16 {
        value.spec_code()
    }
}

/// The kernel's `nl80211_bss_select_attr` enumeration.
#[derive(Clone, Copy, Debug, PartialEq, Eq, PartialOrd, Ord, Hash, Structural)]
pub enum Nl80211BssSelectAttr {
    BssSelectAttrInvalid,
    BssSelectAttrRssi,
    BssSelectAttrBandPref,
    BssSelectAttrRssiAdjust,
    BssSelectAttrAfterLast,
    BssSelectAttrMax,
    UnrecognizedConst(u16),
}

impl Nl80211BssSelectAttr {
    /// The value that a code stands for; where two names share a code, the
    /// first of them.
    pub open spec fn spec_from_code(code: u16) -> Self {
        match code {
            0 => Nl80211BssSelectAttr::BssSelectAttrInvalid,
            1 => Nl80211BssSelectAttr::BssSelectAttrRssi,
            2 => Nl80211BssSelectAttr::BssSelectAttrBandPref,
            3 => Nl80211BssSelectAttr::BssSelectAttrRssiAdjust,
            4 => Nl80211BssSelectAttr::BssSelectAttrAfterLast,
            _ => Nl80211BssSelectAttr::UnrecognizedConst(code),
        }
    }

    /// The code of a value.
    pub open spec fn spec_code(self) -> u16 {
        match self {
            Nl80211BssSelectAttr::BssSelectAttrInvalid => 0,
            Nl80211BssSelectAttr::BssSelectAttrRssi => 1,
            Nl80211BssSelectAttr::BssSelectAttrBandPref => 2,
            Nl80211BssSelectAttr::BssSelectAttrRssiAdjust => 3,
            Nl80211BssSelectAttr::BssSelectAttrAfterLast => 4,
            Nl80211BssSelectAttr::BssSelectAttrMax => 3,
            Nl80211BssSelectAttr::UnrecognizedConst(code) => code,
        }
    }

    /// Whether the value is none that the vocabulary names.
    pub fn is_unrecognized(&self) -> (r: bool)
        ensures
            r == (*self is UnrecognizedConst),
    {
        match self {
            Nl80211BssSelectAttr::UnrecognizedConst(_) => true,
            _ => false,
        }
    }

    /// Every code is the code of the value it stands for.
    pub proof fn lemma_code_round_trip(code: u16)
        ensures
            Self::spec_from_code(code).spec_code() == code,
    {
    }
}

impl From<u16> for Nl80211BssSelectAttr {
    fn from(code: u16) -> (value: Self) {
        match code {
            0 => Nl80211BssSelectAttr::BssSelectAttrInvalid,
            1 => Nl80211BssSelectAttr::BssSelectAttrRssi,
            2 => Nl80211BssSelectAttr::BssSelectAttrBandPref,
            3 => Nl80211BssSelectAttr::BssSelectAttrRssiAdjust,
            4 => Nl80211BssSelectAttr::BssSelectAttrAfterLast,
            _ => Nl80211BssSelectAttr::UnrecognizedConst(code),
        }
    }
}

impl FromSpecImpl<u16> for Nl80211BssSelectAttr {
    open spec fn obeys_from_spec() -> bool {
        true
    }

    open spec fn from_spec(code: u16) -> Self {
        Self::spec_from_code(code)
    }
}

impl From<Nl80211BssSelectAttr> for u16 {
    fn from(value: Nl80211BssSelectAttr) -> (code: u16) {
        match value {
            Nl80211BssSelectAttr::BssSelectAttrInvalid => 0,
            Nl80211BssSelectAttr::BssSelectAttrRssi => 1,
            Nl80211BssSelectAttr::BssSelectAttrBandPref => 2,
            Nl80211BssSelectAttr::BssSelectAttrRssiAdjust => 3,
            Nl80211BssSelectAttr::BssSelectAttrAfterLast => 4,
            Nl80211BssSelectAttr::BssSelectAttrMax => 3,
            Nl80211BssSelectAttr::UnrecognizedConst(code) => code,
        }
    }
}

impl FromSpecImpl<Nl80211BssSelectAttr> for u16 {
    open spec fn obeys_from_spec() -> bool {
        true
    }

    open spec fn from_spec(value: Nl80211BssSelectAttr) -> u16 {
        value.spec_code()
    }
}

/// The kernel's `nl80211_nan_dual_band_conf` enumeration.
#[derive(Clone, Copy, Debug, PartialEq, Eq, PartialOrd, Ord, Hash, Structural)]
pub enum Nl80211NanDualBandConf {
    NanBandDefault,
    NanBand2ghz,
    NanBand5ghz,
    UnrecognizedConst(u16),
}

impl Nl80211NanDualBandConf {
    /// The value that a code stands for; where two names share a code, the
    /// first of them.
    pub open spec fn spec_from_code(code: u16) -> Self {
        match code {
            1 => Nl80211NanDualBandConf::NanBandDefault,
            2 => Nl80211NanDualBandConf::NanBand2ghz,
            4 => Nl80211NanDualBandConf::NanBand5ghz,
            _ => Nl80211NanDualBandConf::UnrecognizedConst(code),
        }
    }

    /// The code of a value.
    pub open spec fn spec_code(self) -> u16 {
        match self {
            Nl80211NanDualBandConf::NanBandDefault => 1,
            Nl80211NanDualBandConf::NanBand2ghz => 2,
            Nl80211NanDualBandConf::NanBand5ghz => 4,
            Nl80211NanDualBandConf::UnrecognizedConst(code) => code,
        }
    }

    /// Whether the value is none that the vocabulary names.
    pub fn is_unrecognized(&self) -> (r: bool)
        ensures
            r == (*self is UnrecognizedConst),
    {
        match self {
            Nl80211NanDualBandConf::UnrecognizedConst(_) => true,
            _ => false,
        }
    }

    /// Every code is the code of the value it stands for.
    pub proof fn lemma_code_round_trip(code: u16)
        ensures
            Self::spec_from_code(code).spec_code() == code,
    {
    }
}

impl From<u16> for Nl80211NanDualBandConf {
    fn from(code: u16) -> (value: Self) {
        match code {
            1 => Nl80211NanDualBandConf::NanBandDefault,
            2 => Nl80211NanDualBandConf::NanBand2ghz,
            4 => Nl80211NanDualBandConf::NanBand5ghz,
            _ => Nl80211NanDualBandConf::UnrecognizedConst(code),
        }
    }
}

impl FromSpecImpl<u16> for Nl80211NanDualBandConf {
    open spec fn obeys_from_spec() -> bool {
        true
    }

    open spec fn from_spec(code: u16) -> Self {
        Self::spec_from_code(code)
    }
}

impl From<Nl80211NanDualBandConf> for u16 {
    fn from(value: Nl80211NanDualBandConf) -> (code: u16) {
        match value {
            Nl80211NanDualBandConf::NanBandDefault => 1,
            Nl80211NanDualBandConf::NanBand2ghz => 2,
            Nl80211NanDualBandConf::NanBand5ghz => 4,
            Nl80211NanDualBandConf::UnrecognizedConst(code) => code,
        }
    }
}

impl FromSpecImpl<Nl80211NanDualBandConf> for u16 {
    open spec fn obeys_from_spec() -> bool {
        true
    }

    open spec fn from_spec(value: Nl80211NanDualBandConf) -> u16 {
        value.spec_code()
    }
}

/// The kernel's `nl80211_nan_function_type` enumeration.
#[derive(Clone, Copy, Debug, PartialEq, Eq, PartialOrd, Ord, Hash, Structural)]
pub enum Nl80211NanFunctionType {
    NanFuncPublish,
    NanFuncSubscribe,
    NanFuncFollowUp,
    NanFuncTypeAfterLast,
    NanFuncMaxType,
    UnrecognizedConst(u16),
}

impl Nl80211NanFunctionType {
    /// The value that a code stands for; where two names share a code, the
    /// first of them.
    pub open spec fn spec_from_code(code: u16) -> Self {
        match code {
            0 => Nl80211NanFunctionType::NanFuncPublish,
            1 => Nl80211NanFunctionType::NanFuncSubscribe,
            2 => Nl80211NanFunctionType::NanFuncFollowUp,
            3 => Nl80211NanFunctionType::NanFuncTypeAfterLast,
            _ => Nl80211NanFunctionType::UnrecognizedConst(code),
        }
    }

    /// The code of a value.
    pub open spec fn spec_code(self) -> u16 {
        match self {
            Nl80211NanFunctionType::NanFuncPublish => 0,
            Nl80211NanFunctionType::NanFuncSubscribe => 1,
            Nl80211NanFunctionType::NanFuncFollowUp => 2,
            Nl80211NanFunctionType::NanFuncTypeAfterLast => 3,
            Nl80211NanFunctionType::NanFuncMaxType => 2,
            Nl80211NanFunctionType::UnrecognizedConst(code) => code,
        }
    }

    /// Whether the value is none that the vocabulary names.
    pub fn is_unrecognized(&self) -> (r: bool)
        ensures
            r == (*self is UnrecognizedConst),
    {
        match self {
            Nl80211NanFunctionType::UnrecognizedConst(_) => true,
            _ => false,
        }
    }

    /// Every code is the code of the value it stands for.
    pub proof fn lemma_code_round_trip(code: u16)
        ensures
            Self::spec_from_code(code).spec_code() == code,
    {
    }
}

impl From<u16> for Nl80211NanFunctionType {
    fn from(code: u16) -> (value: Self) {
        match code {
            0 => Nl80211NanFunctionType::NanFuncPublish,
            1 => Nl80211NanFunctionType::NanFuncSubscribe,
            2 => Nl80211NanFunctionType::NanFuncFollowUp,
            3 => Nl80211NanFunctionType::NanFuncTypeAfterLast,
            _ => Nl80211NanFunctionType::UnrecognizedConst(code),
        }
    }
}

impl FromSpecImpl<u16> for Nl80211NanFunctionType {
    open spec fn obeys_from_spec() -> bool {
        true
    }

    open spec fn from_spec(code: u16) -> Self {
        Self::spec_from_code(code)
    }
}

impl From<Nl80211NanFunctionType> for u16 {
    fn from(value: Nl80211NanFunctionType) -> (code: u16) {
        match value {
            Nl80211NanFunctionType::NanFuncPublish => 0,
            Nl80211NanFunctionType::NanFuncSubscribe => 1,
            Nl80211NanFunctionType::NanFuncFollowUp => 2,
            Nl80211NanFunctionType::NanFuncTypeAfterLast => 3,
            Nl80211NanFunctionType::NanFuncMaxType => 2,
            Nl80211NanFunctionType::UnrecognizedConst(code) => code,
        }
    }
}

impl FromSpecImpl<Nl80211NanFunctionType> for u16 {
    open spec fn obeys_from_spec() -> bool {
        true
    }

    open spec fn from_spec(value: Nl80211NanFunctionType) -> u16 {
        value.spec_code()
    }
}

/// The kernel's `nl80211_nan_publish_type` enumeration.
#[derive(Clone, Copy, Debug, PartialEq, Eq, PartialOrd, Ord, Hash, Structural)]
pub enum Nl80211NanPublishType {
    NanSolicitedPublish,
    NanUnsolicitedPublish,
    UnrecognizedConst(u16),
}

impl Nl80211NanPublishType {
    /// The value that a code stands for; where two names share a code, the
    /// first of them.
    pub open spec fn spec_from_code(code: u16) -> Self {
        match code {
            1 => Nl80211NanPublishType::NanSolicitedPublish,
            2 => Nl80211NanPublishType::NanUnsolicitedPublish,
            _ => Nl80211NanPublishType::UnrecognizedConst(code),
        }
    }

    /// The code of a value.
    pub open spec fn spec_code(self) -> u16 {
        match self {
            Nl80211NanPublishType::NanSolicitedPublish => 1,
            Nl80211NanPublishType::NanUnsolicitedPublish => 2,
            Nl80211NanPublishType::UnrecognizedConst(code) => code,
        }
    }

    /// Whether the value is none that the vocabulary names.
    pub fn is_unrecognized(&self) -> (r: bool)
        ensures
            r == (*self is UnrecognizedConst),
    {
        match self {
            Nl80211NanPublishType::UnrecognizedConst(_) => true,
            _ => false,
        }
    }

    /// Every code is the code of the value it stands for.
    pub proof fn lemma_code_round_trip(code: u16)
        ensures
            Self::spec_from_code(code).spec_code() == code,
    {
    }
}

impl From<u16> for Nl80211NanPublishType {
    fn from(code: u16) -> (value: Self) {
        match code {
            1 => Nl80211NanPublishType::NanSolicitedPublish,
            2 => Nl80211NanPublishType::NanUnsolicitedPublish,
            _ => Nl80211NanPublishType::UnrecognizedConst(code),
        }
    }
}

impl FromSpecImpl<u16> for Nl80211NanPublishType {
    open spec fn obeys_from_spec() -> bool {
        true
    }

    open spec fn from_spec(code: u16) -> Self {
        Self::spec_from_code(code)
    }
}

impl From<Nl80211NanPublishType> for u16 {
    fn from(value: Nl80211NanPublishType) -> (code: u16) {
        match value {
            Nl80211NanPublishType::NanSolicitedPublish => 1,
            Nl80211NanPublishType::NanUnsolicitedPublish => 2,
            Nl80211NanPublishType::UnrecognizedConst(code) => code,
        }
    }
}

impl FromSpecImpl<Nl80211NanPublishType> for u16 {
    open spec fn obeys_from_spec() -> bool {
        true
    }

    open spec fn from_spec(value: Nl80211NanPublishType) -> u16 {
        value.spec_code()
    }
}

/// The kernel's `nl80211_nan_func_term_reason` enumeration.
#[derive(Clone, Copy, Debug, PartialEq, Eq, PartialOrd, Ord, Hash, Structural)]
pub enum Nl80211NanFuncTermReason {
    NanFuncTermReasonUserRequest,
    NanFuncTermReasonTtlExpired,
    NanFuncTermReasonError,
    UnrecognizedConst(u16),
}

impl Nl80211NanFuncTermReason {
    /// The value that a code stands for; where two names share a code, the
    /// first of them.
    pub open spec fn spec_from_code(code: u16) -> Self {
        match code {
            0 => Nl80211NanFuncTermReason::NanFuncTermReasonUserRequest,
            1 => Nl80211NanFuncTermReason::NanFuncTermReasonTtlExpired,
            2 => Nl80211NanFuncTermReason::NanFuncTermReasonError,
            _ => Nl80211NanFuncTermReason::UnrecognizedConst(code),
        }
    }

    /// The code of a value.
    pub open spec fn spec_code(self) -> u16 {
        match self {
            Nl80211NanFuncTermReason::NanFuncTermReasonUserRequest => 0,
            Nl80211NanFuncTermReason::NanFuncTermReasonTtlExpired => 1,
            Nl80211NanFuncTermReason::NanFuncTermReasonError => 2,
            Nl80211NanFuncTermReason::UnrecognizedConst(code) => code,
        }
    }

    /// Whether the value is none that the vocabulary names.
    pub fn is_unrecognized(&self) -> (r: bool)
        ensures
            r == (*self is UnrecognizedConst),
    {
        match self {
            Nl80211NanFuncTermReason::UnrecognizedConst(_) => true,
            _ => false,
        }
    }

    /// Every code is the code of the value it stands for.
    pub proof fn lemma_code_round_trip(code: u16)
        ensures
            Self::spec_from_code(code).spec_code() == code,
    {
    }
}

impl From<u16> for Nl80211NanFuncTermReason {
    fn from(code: u16) -> (value: Self) {
        match code {
            0 => Nl80211NanFuncTermReason::NanFuncTermReasonUserRequest,
            1 => Nl80211NanFuncTermReason::NanFuncTermReasonTtlExpired,
            2 => Nl80211NanFuncTermReason::NanFuncTermReasonError,
            _ => Nl80211NanFuncTermReason::UnrecognizedConst(code),
        }
    }
}

impl FromSpecImpl<u16> for Nl80211NanFuncTermReason {
    open spec fn obeys_from_spec() -> bool {
        true
    }

    open spec fn from_spec(code: u16) -> Self {
        Self::spec_from_code(code)
    }
}

impl From<Nl80211NanFuncTermReason> for u16 {
    fn from(value: Nl80211NanFuncTermReason) -> (code: u16) {
        match value {
            Nl80211NanFuncTermReason::NanFuncTermReasonUserRequest => 0,
            Nl80211NanFuncTermReason::NanFuncTermReasonTtlExpired => 1,
            Nl80211NanFuncTermReason::NanFuncTermReasonError => 2,
            Nl80211NanFuncTermReason::UnrecognizedConst(code) => code,
        }
    }
}

impl FromSpecImpl<Nl80211NanFuncTermReason> for u16 {
    open spec fn obeys_from_spec() -> bool {
        true
    }

    open spec fn from_spec(value: Nl80211NanFuncTermReason) -> u16 {
        value.spec_code()
    }
}

/// The kernel's `nl80211_nan_func_attributes` enumeration.
#[derive(Clone, Copy, Debug, PartialEq, Eq, PartialOrd, Ord, Hash, Structural)]
pub enum Nl80211NanFuncAttributes {
    NanFuncInvalid,
    NanFuncType,
    NanFuncServiceId,
    NanFuncPublishType,
    NanFuncPublishBcast,
    NanFuncSubscribeActive,
    NanFuncFollowUpId,
    NanFuncFollowUpReqId,
    NanFuncFollowUpDest,
    NanFuncCloseRange,
    NanFuncTtl,
    NanFuncServiceInfo,
    NanFuncSrf,
    NanFuncRxMatchFilter,
    NanFuncTxMatchFilter,
    NanFuncInstanceId,
    NanFuncTermReason,
    NumNanFuncAttr,
    NanFuncAttrMax,
    UnrecognizedConst(u16),
}

impl Nl80211NanFuncAttributes {
    /// The value that a code stands for; where two names share a code, the
    /// first of them.
    pub open spec fn spec_from_code(code: u16) -> Self {
        match code {
            0 => Nl80211NanFuncAttributes::NanFuncInvalid,
            1 => Nl80211NanFuncAttributes::NanFuncType,
            2 => Nl80211NanFuncAttributes::NanFuncServiceId,
            3 => Nl80211NanFuncAttributes::NanFuncPublishType,
            4 => Nl80211NanFuncAttributes::NanFuncPublishBcast,
            5 => Nl80211NanFuncAttributes::NanFuncSubscribeActive,
            6 => Nl80211NanFuncAttributes::NanFuncFollowUpId,
            7 => Nl80211NanFuncAttributes::NanFuncFollowUpReqId,
            8 => Nl80211NanFuncAttributes::NanFuncFollowUpDest,
            9 => Nl80211NanFuncAttributes::NanFuncCloseRange,
            10 => Nl80211NanFuncAttributes::NanFuncTtl,
            11 => Nl80211NanFuncAttributes::NanFuncServiceInfo,
            12 => Nl80211NanFuncAttributes::NanFuncSrf,
            13 => Nl80211NanFuncAttributes::NanFuncRxMatchFilter,
            14 => Nl80211NanFuncAttributes::NanFuncTxMatchFilter,
            15 => Nl80211NanFuncAttributes::NanFuncInstanceId,
            16 => Nl80211NanFuncAttributes::NanFuncTermReason,
            17 => Nl80211NanFuncAttributes::NumNanFuncAttr,
            _ => Nl80211NanFuncAttributes::UnrecognizedConst(code),
        }
    }

    /// The code of a value.
    pub open spec fn spec_code(self) -> u16 {
        match self {
            Nl80211NanFuncAttributes::NanFuncInvalid => 0,
            Nl80211NanFuncAttributes::NanFuncType => 1,
            Nl80211NanFuncAttributes::NanFuncServiceId => 2,
            Nl80211NanFuncAttributes::NanFuncPublishType => 3,
            Nl80211NanFuncAttributes::NanFuncPublishBcast => 4,
            Nl80211NanFuncAttributes::NanFuncSubscribeActive => 5,
            Nl80211NanFuncAttributes::NanFuncFollowUpId => 6,
            Nl80211NanFuncAttributes::NanFuncFollowUpReqId => 7,
            Nl80211NanFuncAttributes::NanFuncFollowUpDest => 8,
            Nl80211NanFuncAttributes::NanFuncCloseRange => 9,
            Nl80211NanFuncAttributes::NanFuncTtl => 10,
            Nl80211NanFuncAttributes::NanFuncServiceInfo => 11,
            Nl80211NanFuncAttributes::NanFuncSrf => 12,
            Nl80211NanFuncAttributes::NanFuncRxMatchFilter => 13,
            Nl80211NanFuncAttributes::NanFuncTxMatchFilter => 14,
            Nl80211NanFuncAttributes::NanFuncInstanceId => 15,
            Nl80211NanFuncAttributes::NanFuncTermReason => 16,
            Nl80211NanFuncAttributes::NumNanFuncAttr => 17,
            Nl80211NanFuncAttributes::NanFuncAttrMax => 16,
            Nl80211NanFuncAttributes::UnrecognizedConst(code) => code,
        }
    }

    /// Whether the value is none that the vocabulary names.
    pub fn is_unrecognized(&self) -> (r: bool)
        ensures
            r == (*self is UnrecognizedConst),
    {
        match self {
            Nl80211NanFuncAttributes::UnrecognizedConst(_) => true,
            _ => false,
        }
    }

    /// Every code is the code of the value it stands for.
    pub proof fn lemma_code_round_trip(code: u16)
        ensures
            Self::spec_from_code(code).spec_code() == code,
    {
    }
}

impl From<u16> for Nl80211NanFuncAttributes {
    fn from(code: u16) -> (value: Self) {
        match code {
            0 => Nl80211NanFuncAttributes::NanFuncInvalid,
            1 => Nl80211NanFuncAttributes::NanFuncType,
            2 => Nl80211NanFuncAttributes::NanFuncServiceId,
            3 => Nl80211NanFuncAttributes::NanFuncPublishType,
            4 => Nl80211NanFuncAttributes::NanFuncPublishBcast,
            5 => Nl80211NanFuncAttributes::NanFuncSubscribeActive,
            6 => Nl80211NanFuncAttributes::NanFuncFollowUpId,
            7 => Nl80211NanFuncAttributes::NanFuncFollowUpReqId,
            8 => Nl80211NanFuncAttributes::NanFuncFollowUpDest,
            9 => Nl80211NanFuncAttributes::NanFuncCloseRange,
            10 => Nl80211NanFuncAttributes::NanFuncTtl,
            11 => Nl80211NanFuncAttributes::NanFuncServiceInfo,
            12 => Nl80211NanFuncAttributes::NanFuncSrf,
            13 => Nl80211NanFuncAttributes::NanFuncRxMatchFilter,
            14 => Nl80211NanFuncAttributes::NanFuncTxMatchFilter,
            15 => Nl80211NanFuncAttributes::NanFuncInstanceId,
            16 => Nl80211NanFuncAttributes::NanFuncTermReason,
            17 => Nl80211NanFuncAttributes::NumNanFuncAttr,
            _ => Nl80211NanFuncAttributes::UnrecognizedConst(code),
        }
    }
}

impl FromSpecImpl<u16> for Nl80211NanFuncAttributes {
    open spec fn obeys_from_spec() -> bool {
        true
    }

    open spec fn from_spec(code: u16) -> Self {
        Self::spec_from_code(code)
    }
}

impl From<Nl80211NanFuncAttributes> for u16 {
    fn from(value: Nl80211NanFuncAttributes) -> (code: u16) {
        match value {
            Nl80211NanFuncAttributes::NanFuncInvalid => 0,
            Nl80211NanFuncAttributes::NanFuncType => 1,
            Nl80211NanFuncAttributes::NanFuncServiceId => 2,
            Nl80211NanFuncAttributes::NanFuncPublishType => 3,
            Nl80211NanFuncAttributes::NanFuncPublishBcast => 4,
            Nl80211NanFuncAttributes::NanFuncSubscribeActive => 5,
            Nl80211NanFuncAttributes::NanFuncFollowUpId => 6,
            Nl80211NanFuncAttributes::NanFuncFollowUpReqId => 7,
            Nl80211NanFuncAttributes::NanFuncFollowUpDest => 8,
            Nl80211NanFuncAttributes::NanFuncCloseRange => 9,
            Nl80211NanFuncAttributes::NanFuncTtl => 10,
            Nl80211NanFuncAttributes::NanFuncServiceInfo => 11,
            Nl80211NanFuncAttributes::NanFuncSrf => 12,
            Nl80211NanFuncAttributes::NanFuncRxMatchFilter => 13,
            Nl80211NanFuncAttributes::NanFuncTxMatchFilter => 14,
            Nl80211NanFuncAttributes::NanFuncInstanceId => 15,
            Nl80211NanFuncAttributes::NanFuncTermReason => 16,
            Nl80211NanFuncAttributes::NumNanFuncAttr => 17,
            Nl80211NanFuncAttributes::NanFuncAttrMax => 16,
            Nl80211NanFuncAttributes::UnrecognizedConst(code) => code,
        }
    }
}

impl FromSpecImpl<Nl80211NanFuncAttributes> for u16 {
    open spec fn obeys_from_spec() -> bool {
        true
    }

    open spec fn from_spec(value: Nl80211NanFuncAttributes) -> u16 {
        value.spec_code()
    }
}

/// The kernel's `nl80211_nan_srf_attributes` enumeration.
#[derive(Clone, Copy, Debug, PartialEq, Eq, PartialOrd, Ord, Hash, Structural)]
pub enum Nl80211NanSrfAttributes {
    NanSrfInvalid,
    NanSrfInclude,
    NanSrfBf,
    NanSrfBfIdx,
    NanSrfMacAddrs,
    NumNanSrfAttr,
    NanSrfAttrMax,
    UnrecognizedConst(u16),
}

impl Nl80211NanSrfAttributes {
    /// The value that a code stands for; where two names share a code, the
    /// first of them.
    pub open spec fn spec_from_code(code: u16) -> Self {
        match code {
            0 => Nl80211NanSrfAttributes::NanSrfInvalid,
            1 => Nl80211NanSrfAttributes::NanSrfInclude,
            2 => Nl80211NanSrfAttributes::NanSrfBf,
            3 => Nl80211NanSrfAttributes::NanSrfBfIdx,
            4 => Nl80211NanSrfAttributes::NanSrfMacAddrs,
            5 => Nl80211NanSrfAttributes::NumNanSrfAttr,
            _ => Nl80211NanSrfAttributes::UnrecognizedConst(code),
        }
    }

    /// The code of a value.
    pub open spec fn spec_code(self) -> u16 {
        match self {
            Nl80211NanSrfAttributes::NanSrfInvalid => 0,
            Nl80211NanSrfAttributes::NanSrfInclude => 1,
            Nl80211NanSrfAttributes::NanSrfBf => 2,
            Nl80211NanSrfAttributes::NanSrfBfIdx => 3,
            Nl80211NanSrfAttributes::NanSrfMacAddrs => 4,
            Nl80211NanSrfAttributes::NumNanSrfAttr => 5,
            Nl80211NanSrfAttributes::NanSrfAttrMax => 4,
            Nl80211NanSrfAttributes::UnrecognizedConst(code) => code,
        }
    }

    /// Whether the value is none that the vocabulary names.
    pub fn is_unrecognized(&self) -> (r: bool)
        ensures
            r == (*self is UnrecognizedConst),
    {
        match self {
            Nl80211NanSrfAttributes::UnrecognizedConst(_) => true,
            _ => false,
        }
    }

    /// Every code is the code of the value it stands for.
    pub proof fn lemma_code_round_trip(code: u16)
        ensures
            Self::spec_from_code(code).spec_code() == code,
    {
    }
}

impl From<u16> for Nl80211NanSrfAttributes {
    fn from(code: u16) -> (value: Self) {
        match code {
            0 => Nl80211NanSrfAttributes::NanSrfInvalid,
            1 => Nl80211NanSrfAttributes::NanSrfInclude,
            2 => Nl80211NanSrfAttributes::NanSrfBf,
            3 => Nl80211NanSrfAttributes::NanSrfBfIdx,
            4 => Nl80211NanSrfAttributes::NanSrfMacAddrs,
            5 => Nl80211NanSrfAttributes::NumNanSrfAttr,
            _ => Nl80211NanSrfAttributes::UnrecognizedConst(code),
        }
    }
}

impl FromSpecImpl<u16> for Nl80211NanSrfAttributes {
    open spec fn obeys_from_spec() -> bool {
        true
    }

    open spec fn from_spec(code: u16) -> Self {
        Self::spec_from_code(code)
    }
}

impl From<Nl80211NanSrfAttributes> for u16 {
    fn from(value: Nl80211NanSrfAttributes) -> (code: u16) {
        match value {
            Nl80211NanSrfAttributes::NanSrfInvalid => 0,
            Nl80211NanSrfAttributes::NanSrfInclude => 1,
            Nl80211NanSrfAttributes::NanSrfBf => 2,
            Nl80211NanSrfAttributes::NanSrfBfIdx => 3,
            Nl80211NanSrfAttributes::NanSrfMacAddrs => 4,
            Nl80211NanSrfAttributes::NumNanSrfAttr => 5,
            Nl80211NanSrfAttributes::NanSrfAttrMax => 4,
            Nl80211NanSrfAttributes::UnrecognizedConst(code) => code,
        }
    }
}

impl FromSpecImpl<Nl80211NanSrfAttributes> for u16 {
    open spec fn obeys_from_spec() -> bool {
        true
    }

    open spec fn from_spec(value: Nl80211NanSrfAttributes) -> u16 {
        value.spec_code()
    }
}

/// The kernel's `nl80211_nan_match_attributes` enumeration.
#[derive(Clone, Copy, Debug, PartialEq, Eq, PartialOrd, Ord, Hash, Structural)]
pub enum Nl80211NanMatchAttributes {
    NanMatchInvalid,
    NanMatchFuncLocal,
    NanMatchFuncPeer,
    NumNanMatchAttr,
    NanMatchAttrMax,
    UnrecognizedConst(u16),
}

impl Nl80211NanMatchAttributes {
    /// The value that a code stands for; where two names share a code, the
    /// first of them.
    pub open spec fn spec_from_code(code: u16) -> Self {
        match code {
            0 => Nl80211NanMatchAttributes::NanMatchInvalid,
            1 => Nl80211NanMatchAttributes::NanMatchFuncLocal,
            2 => Nl80211NanMatchAttributes::NanMatchFuncPeer,
            3 => Nl80211NanMatchAttributes::NumNanMatchAttr,
            _ => Nl80211NanMatchAttributes::UnrecognizedConst(code),
        }
    }

    /// The code of a value.
    pub open spec fn spec_code(self) -> u16 {
        match self {
            Nl80211NanMatchAttributes::NanMatchInvalid => 0,
            Nl80211NanMatchAttributes::NanMatchFuncLocal => 1,
            Nl80211NanMatchAttributes::NanMatchFuncPeer => 2,
            Nl80211NanMatchAttributes::NumNanMatchAttr => 3,
            Nl80211NanMatchAttributes::NanMatchAttrMax => 2,
            Nl80211NanMatchAttributes::UnrecognizedConst(code) => code,
        }
    }

    /// Whether the value is none that the vocabulary names.
    pub fn is_unrecognized(&self) -> (r: bool)
        ensures
            r == (*self is UnrecognizedConst),
    {
        match self {
            Nl80211NanMatchAttributes::UnrecognizedConst(_) => true,
            _ => false,
        }
    }

    /// Every code is the code of the value it stands for.
    pub proof fn lemma_code_round_trip(code: u16)
        ensures
            Self::spec_from_code(code).spec_code() == code,
    {
    }
}

impl From<u16> for Nl80211NanMatchAttributes {
    fn from(code: u16) -> (value: Self) {
        match code {
            0 => Nl80211NanMatchAttributes::NanMatchInvalid,
            1 => Nl80211NanMatchAttributes::NanMatchFuncLocal,
            2 => Nl80211NanMatchAttributes::NanMatchFuncPeer,
            3 => Nl80211NanMatchAttributes::NumNanMatchAttr,
            _ => Nl80211NanMatchAttributes::UnrecognizedConst(code),
        }
    }
}

impl FromSpecImpl<u16> for Nl80211NanMatchAttributes {
    open spec fn obeys_from_spec() -> bool {
        true
    }

    open spec fn from_spec(code: u16) -> Self {
        Self::spec_from_code(code)
    }
}

impl From<Nl80211NanMatchAttributes> for u16 {
    fn from(value: Nl80211NanMatchAttributes) -> (code: u16) {
        match value {
            Nl80211NanMatchAttributes::NanMatchInvalid => 0,
            Nl80211NanMatchAttributes::NanMatchFuncLocal => 1,
            Nl80211NanMatchAttributes::NanMatchFuncPeer => 2,
            Nl80211NanMatchAttributes::NumNanMatchAttr => 3,
            Nl80211NanMatchAttributes::NanMatchAttrMax => 2,
            Nl80211NanMatchAttributes::UnrecognizedConst(code) => code,
        }
    }
}

impl FromSpecImpl<Nl80211NanMatchAttributes> for u16 {
    open spec fn obeys_from_spec() -> bool {
        true
    }

    open spec fn from_spec(value: Nl80211NanMatchAttributes) -> u16 {
        value.spec_code()
    }
}

} // verus!
