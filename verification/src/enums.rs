//! The closed code tables of SLMP: command, device-type, end and clear codes.
//!
//! Each enumeration is a closed set of tags; the numeric wire value of a tag
//! comes from its `spec_code` function, with a matching executable `code`.
//! Wire values are looked up fallibly: an unknown value maps to `None`,
//! never to a default tag.

use vstd::prelude::*;

verus! {

/// A command code defined by SLMP.
#[derive(Copy, Clone, Debug, Hash, PartialEq, Eq, Structural)]
pub enum SLMPCommand {
    DeviceRead,
    DeviceWrite,
    DeviceReadRandom,
    DeviceWriteRandom,
    EntryMonitorDevice,
    ExecuteMonitor,
    ReadBlock,
    WriteBlock,
    ArrayLabelRead,
    ArrayLabelWrite,
    LabelReadRandom,
    LabelWriteRandom,
    MemoryRead,
    MemoryWrite,
    ExtendUnitRead,
    ExtendUnitWrite,
    RemoteRun,
    RemoteStop,
    RemotePause,
    RemoteLatchClear,
    RemoteReset,
    ReadTypeName,
    NodeIndication,
    ReadDiskState,
    Defrag,
    RemotePasswordLock,
    RemotePasswordUnlock,
    ReadFileInfo,
    ReadFileInfoWithTitle,
    ReadFileNoInfo,
    ChangeFileInfo,
    FileSearch,
    FileRead,
    FileWrite,
    FileLock,
    FileCopy,
    FileDelete,
    ReadDir,
    SearchDir,
    NewFileA,
    NewFileB,
    DeleteFile,
    CopyFile,
    ChangeFileState,
    ChangeFileDate,
    OpenFile,
    ReadFile,
    WriteFile,
    CloseFile,
    SelfTest,
    ClearErrorCode,
    ClearErrorHistory,
    OnDemand,
    Auth,
    KeepAlive,
    GetData,
    Distribute,
    NodeSearch,
    IPAddressSet,
    DeviceInfoCompare,
    ParameterGet,
    ParameterUpdate,
    ParameterSetStart,
    ParameterSetEnd,
    ParameterSetCancel,
    DeviceIdentificationInfoGet,
    CommunicationSpeed,
    StatusRead,
    StatusRead2,
    ConnectionSettingGet,
    DataMonitoring,
    CAN,
    IOLInk,
    ModbusTCP,
    ModbusRTU,
    SelectNodeInfoGet,
    CommunicationTest,
    CableTest,
    NetworkConfig,
    MasterConfig,
    SlaveConfig,
    CyclicConfig,
    Notification,
    LinkDevicePrmWrite,
    LinkDevicePrmWriteCheckReq,
    LinkDevicePrmWriteCheckResp,
    GetEventNum,
    GetEventHistory,
    ClearEventHistory,
    ClockOffsetDataSend,
    GetCommunicationSet,
    GetStationSubIDList,
    GetDeviceInfo,
    StartBackup,
    EndBackup,
    RequestBackup,
    GetBackupPrm,
    CheckRestore,
    StartRestore,
    EndRestore,
    SetBackupPrm,
    CheckPrmDelivery,
    StopOwnStationCyclic,
    StartOwnStationCyclic,
    StopOtherStationCyclic,
    StartOtherStationCyclic,
    RsvStationConfigTemporaryRelease,
    RsvStationConfig,
    SetWatchdogCounterInfo,
    WatchdogCounterOffsetConfig,
}

impl SLMPCommand {
    /// The 16-bit wire value of this command.
    pub open spec fn spec_code(self) -> u16 {
        match self {
            SLMPCommand::DeviceRead => 0x0401,
            SLMPCommand::DeviceWrite => 0x1401,
            SLMPCommand::DeviceReadRandom => 0x0403,
            SLMPCommand::DeviceWriteRandom => 0x1402,
            SLMPCommand::EntryMonitorDevice => 0x0801,
            SLMPCommand::ExecuteMonitor => 0x0802,
            SLMPCommand::ReadBlock => 0x0406,
            SLMPCommand::WriteBlock => 0x01406,
            SLMPCommand::ArrayLabelRead => 0x041A,
            SLMPCommand::ArrayLabelWrite => 0x141A,
            SLMPCommand::LabelReadRandom => 0x041C,
            SLMPCommand::LabelWriteRandom => 0x141B,
            SLMPCommand::MemoryRead => 0x0613,
            SLMPCommand::MemoryWrite => 0x1613,
            SLMPCommand::ExtendUnitRead => 0x0601,
            SLMPCommand::ExtendUnitWrite => 0x1601,
            SLMPCommand::RemoteRun => 0x1001,
            SLMPCommand::RemoteStop => 0x1002,
            SLMPCommand::RemotePause => 0x1003,
            SLMPCommand::RemoteLatchClear => 0x1005,
            SLMPCommand::RemoteReset => 0x1006,
            SLMPCommand::ReadTypeName => 0x0101,
            SLMPCommand::NodeIndication => 0x3070,
            SLMPCommand::ReadDiskState => 0x0205,
            SLMPCommand::Defrag => 0x1207,
            SLMPCommand::RemotePasswordLock => 0x1631,
            SLMPCommand::RemotePasswordUnlock => 0x1630,
            SLMPCommand::ReadFileInfo => 0x0201,
            SLMPCommand::ReadFileInfoWithTitle => 0x0202,
            SLMPCommand::ReadFileNoInfo => 0x0204,
            SLMPCommand::ChangeFileInfo => 0x1204,
            SLMPCommand::FileSearch => 0x0203,
            SLMPCommand::FileRead => 0x0206,
            SLMPCommand::FileWrite => 0x1203,
            SLMPCommand::FileLock => 0x0808,
            SLMPCommand::FileCopy => 0x1206,
            SLMPCommand::FileDelete => 0x1205,
            SLMPCommand::ReadDir => 0x1810,
            SLMPCommand::SearchDir => 0x1811,
            SLMPCommand::NewFileA => 0x1202,
            SLMPCommand::NewFileB => 0x1820,
            SLMPCommand::DeleteFile => 0x1822,
            SLMPCommand::CopyFile => 0x1824,
            SLMPCommand::ChangeFileState => 0x1825,
            SLMPCommand::ChangeFileDate => 0x1826,
            SLMPCommand::OpenFile => 0x1827,
            SLMPCommand::ReadFile => 0x1828,
            SLMPCommand::WriteFile => 0x1829,
            SLMPCommand::CloseFile => 0x182A,
            SLMPCommand::SelfTest => 0x0619,
            SLMPCommand::ClearErrorCode => 0x1617,
            SLMPCommand::ClearErrorHistory => 0x1619,
            SLMPCommand::OnDemand => 0x2101,
            SLMPCommand::Auth => 0x4000,
            SLMPCommand::KeepAlive => 0x4001,
            SLMPCommand::GetData => 0x4002,
            SLMPCommand::Distribute => 0x4003,
            SLMPCommand::NodeSearch => 0x0E30,
            SLMPCommand::IPAddressSet => 0x0E31,
            SLMPCommand::DeviceInfoCompare => 0x0E32,
            SLMPCommand::ParameterGet => 0x0E33,
            SLMPCommand::ParameterUpdate => 0x0E34,
            SLMPCommand::ParameterSetStart => 0x0E35,
            SLMPCommand::ParameterSetEnd => 0x0E36,
            SLMPCommand::ParameterSetCancel => 0x0E3A,
            SLMPCommand::DeviceIdentificationInfoGet => 0x0E28,
            SLMPCommand::CommunicationSpeed => 0x3072,
            SLMPCommand::StatusRead => 0x0E44,
            SLMPCommand::StatusRead2 => 0x0E53,
            SLMPCommand::ConnectionSettingGet => 0x0E45,
            SLMPCommand::DataMonitoring => 0x0E29,
            SLMPCommand::CAN => 0x4020,
            SLMPCommand::IOLInk => 0x5000,
            SLMPCommand::ModbusTCP => 0x5001,
            SLMPCommand::ModbusRTU => 0x5002,
            SLMPCommand::SelectNodeInfoGet => 0x3119,
            SLMPCommand::CommunicationTest => 0x3040,
            SLMPCommand::CableTest => 0x3050,
            SLMPCommand::NetworkConfig => 0x0E90,
            SLMPCommand::MasterConfig => 0x0E91,
            SLMPCommand::SlaveConfig => 0x0E92,
            SLMPCommand::CyclicConfig => 0x0E93,
            SLMPCommand::Notification => 0x0E94,
            SLMPCommand::LinkDevicePrmWrite => 0x320A,
            SLMPCommand::LinkDevicePrmWriteCheckReq => 0x320B,
            SLMPCommand::LinkDevicePrmWriteCheckResp => 0x320C,
            SLMPCommand::GetEventNum => 0x3060,
            SLMPCommand::GetEventHistory => 0x3061,
            SLMPCommand::ClearEventHistory => 0x161A,
            SLMPCommand::ClockOffsetDataSend => 0x3062,
            SLMPCommand::GetCommunicationSet => 0x0EB0,
            SLMPCommand::GetStationSubIDList => 0x0EB1,
            SLMPCommand::GetDeviceInfo => 0x0EB2,
            SLMPCommand::StartBackup => 0x0EB3,
            SLMPCommand::EndBackup => 0x0EB4,
            SLMPCommand::RequestBackup => 0x0EB5,
            SLMPCommand::GetBackupPrm => 0x0EB6,
            SLMPCommand::CheckRestore => 0x0EB7,
            SLMPCommand::StartRestore => 0x0EB8,
            SLMPCommand::EndRestore => 0x0EB9,
            SLMPCommand::SetBackupPrm => 0x0EBA,
            SLMPCommand::CheckPrmDelivery => 0x0EBE,
            SLMPCommand::StopOwnStationCyclic => 0x3206,
            SLMPCommand::StartOwnStationCyclic => 0x3207,
            SLMPCommand::StopOtherStationCyclic => 0x3208,
            SLMPCommand::StartOtherStationCyclic => 0x3209,
            SLMPCommand::RsvStationConfigTemporaryRelease => 0x320D,
            SLMPCommand::RsvStationConfig => 0x320E,
            SLMPCommand::SetWatchdogCounterInfo => 0x3210,
            SLMPCommand::WatchdogCounterOffsetConfig => 0x3211,
        }
    }

    /// The 16-bit wire value of this command.
    pub fn code(self) -> (r: u16)
        ensures
            r == self.spec_code(),
    {
        match self {
            SLMPCommand::DeviceRead => 0x0401,
            SLMPCommand::DeviceWrite => 0x1401,
            SLMPCommand::DeviceReadRandom => 0x0403,
            SLMPCommand::DeviceWriteRandom => 0x1402,
            SLMPCommand::EntryMonitorDevice => 0x0801,
            SLMPCommand::ExecuteMonitor => 0x0802,
            SLMPCommand::ReadBlock => 0x0406,
            SLMPCommand::WriteBlock => 0x01406,
            SLMPCommand::ArrayLabelRead => 0x041A,
            SLMPCommand::ArrayLabelWrite => 0x141A,
            SLMPCommand::LabelReadRandom => 0x041C,
            SLMPCommand::LabelWriteRandom => 0x141B,
            SLMPCommand::MemoryRead => 0x0613,
            SLMPCommand::MemoryWrite => 0x1613,
            SLMPCommand::ExtendUnitRead => 0x0601,
            SLMPCommand::ExtendUnitWrite => 0x1601,
            SLMPCommand::RemoteRun => 0x1001,
            SLMPCommand::RemoteStop => 0x1002,
            SLMPCommand::RemotePause => 0x1003,
            SLMPCommand::RemoteLatchClear => 0x1005,
            SLMPCommand::RemoteReset => 0x1006,
            SLMPCommand::ReadTypeName => 0x0101,
            SLMPCommand::NodeIndication => 0x3070,
            SLMPCommand::ReadDiskState => 0x0205,
            SLMPCommand::Defrag => 0x1207,
            SLMPCommand::RemotePasswordLock => 0x1631,
            SLMPCommand::RemotePasswordUnlock => 0x1630,
            SLMPCommand::ReadFileInfo => 0x0201,
            SLMPCommand::ReadFileInfoWithTitle => 0x0202,
            SLMPCommand::ReadFileNoInfo => 0x0204,
            SLMPCommand::ChangeFileInfo => 0x1204,
            SLMPCommand::FileSearch => 0x0203,
            SLMPCommand::FileRead => 0x0206,
            SLMPCommand::FileWrite => 0x1203,
            SLMPCommand::FileLock => 0x0808,
            SLMPCommand::FileCopy => 0x1206,
            SLMPCommand::FileDelete => 0x1205,
            SLMPCommand::ReadDir => 0x1810,
            SLMPCommand::SearchDir => 0x1811,
            SLMPCommand::NewFileA => 0x1202,
            SLMPCommand::NewFileB => 0x1820,
            SLMPCommand::DeleteFile => 0x1822,
            SLMPCommand::CopyFile => 0x1824,
            SLMPCommand::ChangeFileState => 0x1825,
            SLMPCommand::ChangeFileDate => 0x1826,
            SLMPCommand::OpenFile => 0x1827,
            SLMPCommand::ReadFile => 0x1828,
            SLMPCommand::WriteFile => 0x1829,
            SLMPCommand::CloseFile => 0x182A,
            SLMPCommand::SelfTest => 0x0619,
            SLMPCommand::ClearErrorCode => 0x1617,
            SLMPCommand::ClearErrorHistory => 0x1619,
            SLMPCommand::OnDemand => 0x2101,
            SLMPCommand::Auth => 0x4000,
            SLMPCommand::KeepAlive => 0x4001,
            SLMPCommand::GetData => 0x4002,
            SLMPCommand::Distribute => 0x4003,
            SLMPCommand::NodeSearch => 0x0E30,
            SLMPCommand::IPAddressSet => 0x0E31,
            SLMPCommand::DeviceInfoCompare => 0x0E32,
            SLMPCommand::ParameterGet => 0x0E33,
            SLMPCommand::ParameterUpdate => 0x0E34,
            SLMPCommand::ParameterSetStart => 0x0E35,
            SLMPCommand::ParameterSetEnd => 0x0E36,
            SLMPCommand::ParameterSetCancel => 0x0E3A,
            SLMPCommand::DeviceIdentificationInfoGet => 0x0E28,
            SLMPCommand::CommunicationSpeed => 0x3072,
            SLMPCommand::StatusRead => 0x0E44,
            SLMPCommand::StatusRead2 => 0x0E53,
            SLMPCommand::ConnectionSettingGet => 0x0E45,
            SLMPCommand::DataMonitoring => 0x0E29,
            SLMPCommand::CAN => 0x4020,
            SLMPCommand::IOLInk => 0x5000,
            SLMPCommand::ModbusTCP => 0x5001,
            SLMPCommand::ModbusRTU => 0x5002,
            SLMPCommand::SelectNodeInfoGet => 0x3119,
            SLMPCommand::CommunicationTest => 0x3040,
            SLMPCommand::CableTest => 0x3050,
            SLMPCommand::NetworkConfig => 0x0E90,
            SLMPCommand::MasterConfig => 0x0E91,
            SLMPCommand::SlaveConfig => 0x0E92,
            SLMPCommand::CyclicConfig => 0x0E93,
            SLMPCommand::Notification => 0x0E94,
            SLMPCommand::LinkDevicePrmWrite => 0x320A,
            SLMPCommand::LinkDevicePrmWriteCheckReq => 0x320B,
            SLMPCommand::LinkDevicePrmWriteCheckResp => 0x320C,
            SLMPCommand::GetEventNum => 0x3060,
            SLMPCommand::GetEventHistory => 0x3061,
            SLMPCommand::ClearEventHistory => 0x161A,
            SLMPCommand::ClockOffsetDataSend => 0x3062,
            SLMPCommand::GetCommunicationSet => 0x0EB0,
            SLMPCommand::GetStationSubIDList => 0x0EB1,
            SLMPCommand::GetDeviceInfo => 0x0EB2,
            SLMPCommand::StartBackup => 0x0EB3,
            SLMPCommand::EndBackup => 0x0EB4,
            SLMPCommand::RequestBackup => 0x0EB5,
            SLMPCommand::GetBackupPrm => 0x0EB6,
            SLMPCommand::CheckRestore => 0x0EB7,
            SLMPCommand::StartRestore => 0x0EB8,
            SLMPCommand::EndRestore => 0x0EB9,
            SLMPCommand::SetBackupPrm => 0x0EBA,
            SLMPCommand::CheckPrmDelivery => 0x0EBE,
            SLMPCommand::StopOwnStationCyclic => 0x3206,
            SLMPCommand::StartOwnStationCyclic => 0x3207,
            SLMPCommand::StopOtherStationCyclic => 0x3208,
            SLMPCommand::StartOtherStationCyclic => 0x3209,
            SLMPCommand::RsvStationConfigTemporaryRelease => 0x320D,
            SLMPCommand::RsvStationConfig => 0x320E,
            SLMPCommand::SetWatchdogCounterInfo => 0x3210,
            SLMPCommand::WatchdogCounterOffsetConfig => 0x3211,
        }
    }
}

/// A device-type code defined by SLMP.
#[derive(Copy, Clone, Debug, Hash, PartialEq, Eq, Structural)]
pub enum SLMPDeviceCode {
    SM,
    SD,
    X,
    Y,
    M,
    L,
    F,
    V,
    B,
    D,
    W,
    TS,
    TC,
    TN,
    LTS,
    LTC,
    LTN,
    STS,
    STC,
    STN,
    LSTS,
    LSTC,
    LSTN,
    CS,
    CC,
    CN,
    SB,
    SW,
    DX,
    DY,
    Z,
    LZ,
    R,
    ZR,
    RD,
    LCS,
    LCC,
    LCN,
}

impl SLMPDeviceCode {
    /// The wire value of this device type; every defined type fits in one byte.
    pub open spec fn spec_code(self) -> u16 {
        match self {
            SLMPDeviceCode::SM => 0x91,
            SLMPDeviceCode::SD => 0xA9,
            SLMPDeviceCode::X => 0x9C,
            SLMPDeviceCode::Y => 0x9D,
            SLMPDeviceCode::M => 0x90,
            SLMPDeviceCode::L => 0x92,
            SLMPDeviceCode::F => 0x93,
            SLMPDeviceCode::V => 0x94,
            SLMPDeviceCode::B => 0xA0,
            SLMPDeviceCode::D => 0xA8,
            SLMPDeviceCode::W => 0xB4,
            SLMPDeviceCode::TS => 0xC1,
            SLMPDeviceCode::TC => 0xC0,
            SLMPDeviceCode::TN => 0xC2,
            SLMPDeviceCode::LTS => 0x51,
            SLMPDeviceCode::LTC => 0x50,
            SLMPDeviceCode::LTN => 0x52,
            SLMPDeviceCode::STS => 0xC7,
            SLMPDeviceCode::STC => 0xC6,
            SLMPDeviceCode::STN => 0xC8,
            SLMPDeviceCode::LSTS => 0x59,
            SLMPDeviceCode::LSTC => 0x58,
            SLMPDeviceCode::LSTN => 0x5A,
            SLMPDeviceCode::CS => 0xC4,
            SLMPDeviceCode::CC => 0xC3,
            SLMPDeviceCode::CN => 0xC5,
            SLMPDeviceCode::SB => 0xA1,
            SLMPDeviceCode::SW => 0xB5,
            SLMPDeviceCode::DX => 0xA2,
            SLMPDeviceCode::DY => 0xA3,
            SLMPDeviceCode::Z => 0xCC,
            SLMPDeviceCode::LZ => 0x62,
            SLMPDeviceCode::R => 0xAF,
            SLMPDeviceCode::ZR => 0xB0,
            SLMPDeviceCode::RD => 0x2C,
            SLMPDeviceCode::LCS => 0x55,
            SLMPDeviceCode::LCC => 0x54,
            SLMPDeviceCode::LCN => 0x56,
        }
    }

    /// The wire value of this device type.
    pub fn code(self) -> (r: u16)
        ensures
            r == self.spec_code(),
            r < 256,
    {
        match self {
            SLMPDeviceCode::SM => 0x91,
            SLMPDeviceCode::SD => 0xA9,
            SLMPDeviceCode::X => 0x9C,
            SLMPDeviceCode::Y => 0x9D,
            SLMPDeviceCode::M => 0x90,
            SLMPDeviceCode::L => 0x92,
            SLMPDeviceCode::F => 0x93,
            SLMPDeviceCode::V => 0x94,
            SLMPDeviceCode::B => 0xA0,
            SLMPDeviceCode::D => 0xA8,
            SLMPDeviceCode::W => 0xB4,
            SLMPDeviceCode::TS => 0xC1,
            SLMPDeviceCode::TC => 0xC0,
            SLMPDeviceCode::TN => 0xC2,
            SLMPDeviceCode::LTS => 0x51,
            SLMPDeviceCode::LTC => 0x50,
            SLMPDeviceCode::LTN => 0x52,
            SLMPDeviceCode::STS => 0xC7,
            SLMPDeviceCode::STC => 0xC6,
            SLMPDeviceCode::STN => 0xC8,
            SLMPDeviceCode::LSTS => 0x59,
            SLMPDeviceCode::LSTC => 0x58,
            SLMPDeviceCode::LSTN => 0x5A,
            SLMPDeviceCode::CS => 0xC4,
            SLMPDeviceCode::CC => 0xC3,
            SLMPDeviceCode::CN => 0xC5,
            SLMPDeviceCode::SB => 0xA1,
            SLMPDeviceCode::SW => 0xB5,
            SLMPDeviceCode::DX => 0xA2,
            SLMPDeviceCode::DY => 0xA3,
            SLMPDeviceCode::Z => 0xCC,
            SLMPDeviceCode::LZ => 0x62,
            SLMPDeviceCode::R => 0xAF,
            SLMPDeviceCode::ZR => 0xB0,
            SLMPDeviceCode::RD => 0x2C,
            SLMPDeviceCode::LCS => 0x55,
            SLMPDeviceCode::LCC => 0x54,
            SLMPDeviceCode::LCN => 0x56,
        }
    }
}

/// An end code: the 2-byte status a station returns with each response.
#[derive(Copy, Clone, Debug, Hash, PartialEq, Eq, Structural)]
pub enum SLMPEndCode {
    Success,
    WrongCommand,
    WrongFormat,
    WrongLength,
    Busy,
    ExceedReqLength,
    ExceedRespLength,
    ServerNotFound,
    WrongConfigItem,
    PrmIDNotFound,
    NotStartExclusiveWrite,
    RelayFailure,
    TimeoutError,
    CANAppNotPermittedRead,
    CANAppWriteOnly,
    CANAppReadOnly,
    CANAppUndefinedObjectAccess,
    CANAppNotPermittedPDOMapping,
    CANAppExceedPDOMapping,
    CANAppNotExistSubIndex,
    CANAppWrongParameter,
    CANAppMoreOverParameterRange,
    CANAppLessOverParameterRange,
    CANAppTransOrStoreError,
    CANAppOtherError,
    OtherNetworkError,
    DataFragmentShortage,
    DataFragmentDup,
    DataFragmentLost,
    DataFragmentNotSupport,
}

/// The end code denoted by a 16-bit wire value, if the value is a defined one.
pub open spec fn spec_end_code(code: u16) -> Option<SLMPEndCode> {
    if code == 0x00 {
        Some(SLMPEndCode::Success)
    } else if code == 0xC059 {
        Some(SLMPEndCode::WrongCommand)
    } else if code == 0xC05C {
        Some(SLMPEndCode::WrongFormat)
    } else if code == 0xC061 {
        Some(SLMPEndCode::WrongLength)
    } else if code == 0xCEE0 {
        Some(SLMPEndCode::Busy)
    } else if code == 0xCEE1 {
        Some(SLMPEndCode::ExceedReqLength)
    } else if code == 0xCEE2 {
        Some(SLMPEndCode::ExceedRespLength)
    } else if code == 0xCF10 {
        Some(SLMPEndCode::ServerNotFound)
    } else if code == 0xCF20 {
        Some(SLMPEndCode::WrongConfigItem)
    } else if code == 0xCF30 {
        Some(SLMPEndCode::PrmIDNotFound)
    } else if code == 0xCF31 {
        Some(SLMPEndCode::NotStartExclusiveWrite)
    } else if code == 0xCF70 {
        Some(SLMPEndCode::RelayFailure)
    } else if code == 0xCF71 {
        Some(SLMPEndCode::TimeoutError)
    } else if code == 0xCCC7 {
        Some(SLMPEndCode::CANAppNotPermittedRead)
    } else if code == 0xCCC8 {
        Some(SLMPEndCode::CANAppWriteOnly)
    } else if code == 0xCCC9 {
        Some(SLMPEndCode::CANAppReadOnly)
    } else if code == 0xCCCA {
        Some(SLMPEndCode::CANAppUndefinedObjectAccess)
    } else if code == 0xCCCB {
        Some(SLMPEndCode::CANAppNotPermittedPDOMapping)
    } else if code == 0xCCCC {
        Some(SLMPEndCode::CANAppExceedPDOMapping)
    } else if code == 0xCCD3 {
        Some(SLMPEndCode::CANAppNotExistSubIndex)
    } else if code == 0xCCD4 {
        Some(SLMPEndCode::CANAppWrongParameter)
    } else if code == 0xCCD5 {
        Some(SLMPEndCode::CANAppMoreOverParameterRange)
    } else if code == 0xCCD6 {
        Some(SLMPEndCode::CANAppLessOverParameterRange)
    } else if code == 0xCCDA {
        Some(SLMPEndCode::CANAppTransOrStoreError)
    } else if code == 0xCCFF {
        Some(SLMPEndCode::CANAppOtherError)
    } else if code == 0xCF00 {
        Some(SLMPEndCode::OtherNetworkError)
    } else if code == 0xCF40 {
        Some(SLMPEndCode::DataFragmentShortage)
    } else if code == 0xCF41 {
        Some(SLMPEndCode::DataFragmentDup)
    } else if code == 0xCF43 {
        Some(SLMPEndCode::DataFragmentLost)
    } else if code == 0xCF44 {
        Some(SLMPEndCode::DataFragmentNotSupport)
    } else {
        None
    }
}

impl SLMPEndCode {
    /// The end code with the given wire value, or `None` for an unknown value.
    pub fn get(code: u16) -> (r: Option<SLMPEndCode>)
        ensures
            r == spec_end_code(code),
    {
        match code {
            0x00 => Some(SLMPEndCode::Success),
            0xC059 => Some(SLMPEndCode::WrongCommand),
            0xC05C => Some(SLMPEndCode::WrongFormat),
            0xC061 => Some(SLMPEndCode::WrongLength),
            0xCEE0 => Some(SLMPEndCode::Busy),
            0xCEE1 => Some(SLMPEndCode::ExceedReqLength),
            0xCEE2 => Some(SLMPEndCode::ExceedRespLength),
            0xCF10 => Some(SLMPEndCode::ServerNotFound),
            0xCF20 => Some(SLMPEndCode::WrongConfigItem),
            0xCF30 => Some(SLMPEndCode::PrmIDNotFound),
            0xCF31 => Some(SLMPEndCode::NotStartExclusiveWrite),
            0xCF70 => Some(SLMPEndCode::RelayFailure),
            0xCF71 => Some(SLMPEndCode::TimeoutError),
            0xCCC7 => Some(SLMPEndCode::CANAppNotPermittedRead),
            0xCCC8 => Some(SLMPEndCode::CANAppWriteOnly),
            0xCCC9 => Some(SLMPEndCode::CANAppReadOnly),
            0xCCCA => Some(SLMPEndCode::CANAppUndefinedObjectAccess),
            0xCCCB => Some(SLMPEndCode::CANAppNotPermittedPDOMapping),
            0xCCCC => Some(SLMPEndCode::CANAppExceedPDOMapping),
            0xCCD3 => Some(SLMPEndCode::CANAppNotExistSubIndex),
            0xCCD4 => Some(SLMPEndCode::CANAppWrongParameter),
            0xCCD5 => Some(SLMPEndCode::CANAppMoreOverParameterRange),
            0xCCD6 => Some(SLMPEndCode::CANAppLessOverParameterRange),
            0xCCDA => Some(SLMPEndCode::CANAppTransOrStoreError),
            0xCCFF => Some(SLMPEndCode::CANAppOtherError),
            0xCF00 => Some(SLMPEndCode::OtherNetworkError),
            0xCF40 => Some(SLMPEndCode::DataFragmentShortage),
            0xCF41 => Some(SLMPEndCode::DataFragmentDup),
            0xCF43 => Some(SLMPEndCode::DataFragmentLost),
            0xCF44 => Some(SLMPEndCode::DataFragmentNotSupport),
            _ => None,
        }
    }
}

/// The clear mode named in a remote-run request.
#[derive(Copy, Clone, Debug, Hash, PartialEq, Eq, Structural)]
pub enum SLMPClearMode {
    Not,
    Clear,
    AllClear,
}

impl SLMPClearMode {
    /// The one-byte wire value of this clear mode.
    pub open spec fn spec_code(self) -> u8 {
        match self {
            SLMPClearMode::Not => 0x00,
            SLMPClearMode::Clear => 0x01,
            SLMPClearMode::AllClear => 0x02,
        }
    }

    /// The one-byte wire value of this clear mode.
    pub fn code(self) -> (r: u8)
        ensures
            r == self.spec_code(),
    {
        match self {
            SLMPClearMode::Not => 0x00,
            SLMPClearMode::Clear => 0x01,
            SLMPClearMode::AllClear => 0x02,
        }
    }
}

} // verus!
