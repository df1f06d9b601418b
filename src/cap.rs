//! The capabilities that can be asked of the KVM system handle.
use vstd::prelude::*;

verus! {

/// A capability of the KVM interface, queried with a check-extension request.
#[derive(Clone, Copy, Debug, PartialEq, Eq, Structural)]
pub enum Cap {
    Irqchip,
    Hlt,
    MmuShadowCacheControl,
    UserMemory,
    SetTssAddr,
    Vapic,
    ExtCpuid,
    ClockSource,
    NrVcpus,
    NrMemslots,
    Pit,
    NopIoDelay,
    PvMmu,
    MpState,
    CoalescedMmio,
    SyncMmu,
    Iommu,
    DestroyMemoryRegionWorks,
    UserNmi,
    SetGuestDebug,
    ReinjectControl,
    IrqRouting,
    IrqInjectStatus,
    AssignDevIrq,
    JoinMemoryRegionsWorks,
    Mce,
    Irqfd,
    Pit2,
    SetBootCpuId,
    PitState2,
    Ioeventfd,
    SetIdentityMapAddr,
    XenHvm,
    AdjustClock,
    InternalErrorData,
    VcpuEvents,
    S390Psw,
    PpcSegstate,
    Hyperv,
    HypervVapic,
    HypervSpin,
    PciSegment,
    PpcPairedSingles,
    IntrShadow,
    Debugregs,
    X86RobustSinglestep,
    PpcOsi,
    PpcUnsetIrq,
    EnableCap,
    Xsave,
    Xcrs,
    PpcGetPvinfo,
    PpcIrqLevel,
    AsyncPf,
    TscControl,
    GetTscKhz,
    PpcBookeSregs,
    SpaprTce,
    PpcSmt,
    PpcRma,
    MaxVcpus,
    PpcHior,
    PpcPapr,
    SwTlb,
    OneReg,
    S390Gmap,
    TscDeadlineTimer,
    S390Ucontrol,
    SyncRegs,
    Pci23,
    KvmclockCtrl,
    SignalMsi,
    PpcGetSmmuInfo,
    S390Cow,
    PpcAllocHtab,
    ReadonlyMem,
    IrqfdResample,
    PpcBookeWatchdog,
    PpcHtabFd,
    S390CssSupport,
    PpcEpr,
    ArmPsci,
    ArmSetDeviceAddr,
    DeviceCtrl,
    IrqMpic,
    PpcRtas,
    IrqXics,
    ArmEl132bit,
    SpaprMultitce,
    ExtEmulCpuid,
    HypervTime,
    IoapicPolarityIgnored,
    EnableCapVm,
    S390Irqchip,
    IoeventfdNoLength,
    VmAttributes,
    ArmPsci02,
    PpcFixupHcall,
    PpcEnableHcall,
    CheckExtensionVm,
    S390UserSigp,
}

impl Cap {
    /// The number by which the kernel ABI names this capability.
    pub open spec fn spec_number(self) -> u32 {
        match self {
            Cap::Irqchip => 0,
            Cap::Hlt => 1,
            Cap::MmuShadowCacheControl => 2,
            Cap::UserMemory => 3,
            Cap::SetTssAddr => 4,
            Cap::Vapic => 6,
            Cap::ExtCpuid => 7,
            Cap::ClockSource => 8,
            Cap::NrVcpus => 9,
            Cap::NrMemslots => 10,
            Cap::Pit => 11,
            Cap::NopIoDelay => 12,
            Cap::PvMmu => 13,
            Cap::MpState => 14,
            Cap::CoalescedMmio => 15,
            Cap::SyncMmu => 16,
            Cap::Iommu => 18,
            Cap::DestroyMemoryRegionWorks => 21,
            Cap::UserNmi => 22,
            Cap::SetGuestDebug => 23,
            Cap::ReinjectControl => 24,
            Cap::IrqRouting => 25,
            Cap::IrqInjectStatus => 26,
            Cap::AssignDevIrq => 29,
            Cap::JoinMemoryRegionsWorks => 30,
            Cap::Mce => 31,
            Cap::Irqfd => 32,
            Cap::Pit2 => 33,
            Cap::SetBootCpuId => 34,
            Cap::PitState2 => 35,
            Cap::Ioeventfd => 36,
            Cap::SetIdentityMapAddr => 37,
            Cap::XenHvm => 38,
            Cap::AdjustClock => 39,
            Cap::InternalErrorData => 40,
            Cap::VcpuEvents => 41,
            Cap::S390Psw => 42,
            Cap::PpcSegstate => 43,
            Cap::Hyperv => 44,
            Cap::HypervVapic => 45,
            Cap::HypervSpin => 46,
            Cap::PciSegment => 47,
            Cap::PpcPairedSingles => 48,
            Cap::IntrShadow => 49,
            Cap::Debugregs => 50,
            Cap::X86RobustSinglestep => 51,
            Cap::PpcOsi => 52,
            Cap::PpcUnsetIrq => 53,
            Cap::EnableCap => 54,
            Cap::Xsave => 55,
            Cap::Xcrs => 56,
            Cap::PpcGetPvinfo => 57,
            Cap::PpcIrqLevel => 58,
            Cap::AsyncPf => 59,
            Cap::TscControl => 60,
            Cap::GetTscKhz => 61,
            Cap::PpcBookeSregs => 62,
            Cap::SpaprTce => 63,
            Cap::PpcSmt => 64,
            Cap::PpcRma => 65,
            Cap::MaxVcpus => 66,
            Cap::PpcHior => 67,
            Cap::PpcPapr => 68,
            Cap::SwTlb => 69,
            Cap::OneReg => 70,
            Cap::S390Gmap => 71,
            Cap::TscDeadlineTimer => 72,
            Cap::S390Ucontrol => 73,
            Cap::SyncRegs => 74,
            Cap::Pci23 => 75,
            Cap::KvmclockCtrl => 76,
            Cap::SignalMsi => 77,
            Cap::PpcGetSmmuInfo => 78,
            Cap::S390Cow => 79,
            Cap::PpcAllocHtab => 80,
            Cap::ReadonlyMem => 81,
            Cap::IrqfdResample => 82,
            Cap::PpcBookeWatchdog => 83,
            Cap::PpcHtabFd => 84,
            Cap::S390CssSupport => 85,
            Cap::PpcEpr => 86,
            Cap::ArmPsci => 87,
            Cap::ArmSetDeviceAddr => 88,
            Cap::DeviceCtrl => 89,
            Cap::IrqMpic => 90,
            Cap::PpcRtas => 91,
            Cap::IrqXics => 92,
            Cap::ArmEl132bit => 93,
            Cap::SpaprMultitce => 94,
            Cap::ExtEmulCpuid => 95,
            Cap::HypervTime => 96,
            Cap::IoapicPolarityIgnored => 97,
            Cap::EnableCapVm => 98,
            Cap::S390Irqchip => 99,
            Cap::IoeventfdNoLength => 100,
            Cap::VmAttributes => 101,
            Cap::ArmPsci02 => 102,
            Cap::PpcFixupHcall => 103,
            Cap::PpcEnableHcall => 104,
            Cap::CheckExtensionVm => 105,
            Cap::S390UserSigp => 106,
        }
    }

    /// The number by which the kernel ABI names this capability.
    pub fn number(&self) -> (r: u32)
        ensures
            r == self.spec_number(),
    {
        match self {
            Cap::Irqchip => 0,
            Cap::Hlt => 1,
            Cap::MmuShadowCacheControl => 2,
            Cap::UserMemory => 3,
            Cap::SetTssAddr => 4,
            Cap::Vapic => 6,
            Cap::ExtCpuid => 7,
            Cap::ClockSource => 8,
            Cap::NrVcpus => 9,
            Cap::NrMemslots => 10,
            Cap::Pit => 11,
            Cap::NopIoDelay => 12,
            Cap::PvMmu => 13,
            Cap::MpState => 14,
            Cap::CoalescedMmio => 15,
            Cap::SyncMmu => 16,
            Cap::Iommu => 18,
            Cap::DestroyMemoryRegionWorks => 21,
            Cap::UserNmi => 22,
            Cap::SetGuestDebug => 23,
            Cap::ReinjectControl => 24,
            Cap::IrqRouting => 25,
            Cap::IrqInjectStatus => 26,
            Cap::AssignDevIrq => 29,
            Cap::JoinMemoryRegionsWorks => 30,
            Cap::Mce => 31,
            Cap::Irqfd => 32,
            Cap::Pit2 => 33,
            Cap::SetBootCpuId => 34,
            Cap::PitState2 => 35,
            Cap::Ioeventfd => 36,
            Cap::SetIdentityMapAddr => 37,
            Cap::XenHvm => 38,
            Cap::AdjustClock => 39,
            Cap::InternalErrorData => 40,
            Cap::VcpuEvents => 41,
            Cap::S390Psw => 42,
            Cap::PpcSegstate => 43,
            Cap::Hyperv => 44,
            Cap::HypervVapic => 45,
            Cap::HypervSpin => 46,
            Cap::PciSegment => 47,
            Cap::PpcPairedSingles => 48,
            Cap::IntrShadow => 49,
            Cap::Debugregs => 50,
            Cap::X86RobustSinglestep => 51,
            Cap::PpcOsi => 52,
            Cap::PpcUnsetIrq => 53,
            Cap::EnableCap => 54,
            Cap::Xsave => 55,
            Cap::Xcrs => 56,
            Cap::PpcGetPvinfo => 57,
            Cap::PpcIrqLevel => 58,
            Cap::AsyncPf => 59,
            Cap::TscControl => 60,
            Cap::GetTscKhz => 61,
            Cap::PpcBookeSregs => 62,
            Cap::SpaprTce => 63,
            Cap::PpcSmt => 64,
            Cap::PpcRma => 65,
            Cap::MaxVcpus => 66,
            Cap::PpcHior => 67,
            Cap::PpcPapr => 68,
            Cap::SwTlb => 69,
            Cap::OneReg => 70,
            Cap::S390Gmap => 71,
            Cap::TscDeadlineTimer => 72,
            Cap::S390Ucontrol => 73,
            Cap::SyncRegs => 74,
            Cap::Pci23 => 75,
            Cap::KvmclockCtrl => 76,
            Cap::SignalMsi => 77,
            Cap::PpcGetSmmuInfo => 78,
            Cap::S390Cow => 79,
            Cap::PpcAllocHtab => 80,
            Cap::ReadonlyMem => 81,
            Cap::IrqfdResample => 82,
            Cap::PpcBookeWatchdog => 83,
            Cap::PpcHtabFd => 84,
            Cap::S390CssSupport => 85,
            Cap::PpcEpr => 86,
            Cap::ArmPsci => 87,
            Cap::ArmSetDeviceAddr => 88,
            Cap::DeviceCtrl => 89,
            Cap::IrqMpic => 90,
            Cap::PpcRtas => 91,
            Cap::IrqXics => 92,
            Cap::ArmEl132bit => 93,
            Cap::SpaprMultitce => 94,
            Cap::ExtEmulCpuid => 95,
            Cap::HypervTime => 96,
            Cap::IoapicPolarityIgnored => 97,
            Cap::EnableCapVm => 98,
            Cap::S390Irqchip => 99,
            Cap::IoeventfdNoLength => 100,
            Cap::VmAttributes => 101,
            Cap::ArmPsci02 => 102,
            Cap::PpcFixupHcall => 103,
            Cap::PpcEnableHcall => 104,
            Cap::CheckExtensionVm => 105,
            Cap::S390UserSigp => 106,
        }
    }
}

} // verus!
