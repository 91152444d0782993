//! Control transfers of the composite USB device: the reset interface's handler,
//! and the dispatch of a request among the interfaces in registration order.
use vstd::prelude::*;

verus! {

/// The largest packet of the control endpoint.
pub const MAX_PACKET_SIZE: u8 = 64;

/// Class code of the vendor-specific reset interface.
pub const CLASS_VENDOR_SPECIFIC: u8 = 0xFF;

/// Subclass code of the reset interface.
pub const RESET_IFACE_SUBCLASS: u8 = 0x00;

/// Protocol code of the reset interface.
pub const RESET_IFACE_PROTOCOL: u8 = 0x01;

/// Request code: restart into the USB bootloader.
pub const RESET_REQUEST_BOOTSEL: u8 = 0x01;

/// Request code: restart into flash. Not supported.
pub const RESET_REQUEST_FLASH: u8 = 0x02;

/// The buffers that the device's descriptors and control transfers are built in.
pub struct State {
    pub config_descriptor: [u8; 128],
    pub bos_descriptor: [u8; 16],
    pub msos_descriptor: [u8; 256],
    pub control_buf: [u8; 64],
}

impl State {
    /// Zeroed buffers.
    pub fn new() -> (r: State)
        ensures
            forall|i: int| 0 <= i < 128 ==> r.config_descriptor@[i] == 0,
            forall|i: int| 0 <= i < 16 ==> r.bos_descriptor@[i] == 0,
            forall|i: int| 0 <= i < 256 ==> r.msos_descriptor@[i] == 0,
            forall|i: int| 0 <= i < 64 ==> r.control_buf@[i] == 0,
    {
        State {
            config_descriptor: [0u8; 128],
            bos_descriptor: [0u8; 16],
            msos_descriptor: [0u8; 256],
            control_buf: [0u8; 64],
        }
    }
}

/// The type field of a control request.
#[derive(Debug, Clone, Copy, PartialEq, Eq, Structural)]
pub enum RequestType {
    Standard,
    Class,
    Vendor,
    Reserved,
}

/// The recipient field of a control request.
#[derive(Debug, Clone, Copy, PartialEq, Eq, Structural)]
pub enum Recipient {
    Device,
    Interface,
    Endpoint,
    Other,
    Reserved,
}

/// The fields of a control request that handlers read.
#[derive(Debug, Clone, Copy, PartialEq, Eq, Structural)]
pub struct ControlRequest {
    pub request_type: RequestType,
    pub recipient: Recipient,
    pub request: u8,
    pub value: u16,
    pub index: u16,
}

/// What a handler answers to a control request that carries data out of the host.
#[derive(Debug, Clone, Copy, PartialEq, Eq, Structural)]
pub enum OutDecision {
    /// Restart into the USB bootloader, with these interfaces disabled; there is
    /// nothing to answer, the device goes away.
    ResetToUsbBoot { disable_interface_mask: u32 },
    /// The class driver of the interface answers.
    Delegated,
    /// Refuse the request.
    Rejected,
}

/// What a handler answers to a control request that reads data into the host.
#[derive(Debug, Clone, Copy, PartialEq, Eq, Structural)]
pub enum InDecision {
    /// The class driver of the interface answers.
    Delegated,
    /// Refuse the request.
    Rejected,
}

/// A class request addressed to the given interface.
pub open spec fn addressed_to(req: ControlRequest, iface: u8) -> bool {
    &&& req.request_type == RequestType::Class
    &&& req.recipient == Recipient::Interface
    &&& req.index == iface as u16
}

/// The reset interface's answer to a request out of the host that it claims.
pub open spec fn reset_out_decision(req: ControlRequest) -> OutDecision {
    if req.request == RESET_REQUEST_BOOTSEL {
        OutDecision::ResetToUsbBoot { disable_interface_mask: (req.value & 0x7F) as u32 }
    } else {
        OutDecision::Rejected
    }
}

/// The handler of the vendor reset interface.
#[derive(Debug, Clone, Copy, PartialEq, Eq, Structural)]
pub struct ResetHandler {
    pub iface_num: u8,
}

impl ResetHandler {
    /// A handler for the interface with this number.
    pub fn new(iface_num: u8) -> (r: Self)
        ensures
            r.iface_num == iface_num,
    {
        ResetHandler { iface_num }
    }

    /// Whether the request is this handler's.
    pub fn claims(&self, req: &ControlRequest) -> (r: bool)
        ensures
            r == addressed_to(*req, self.iface_num),
    {
        req.request_type == RequestType::Class && req.recipient == Recipient::Interface
            && req.index == self.iface_num as u16
    }

    /// Requests into the host: none is expected, so a claimed one is refused.
    pub fn control_in(&self, req: &ControlRequest) -> (r: Option<InDecision>)
        ensures
            r == (if addressed_to(*req, self.iface_num) {
                Some(InDecision::Rejected)
            } else {
                None
            }),
    {
        if !self.claims(req) {
            return None;
        }
        Some(InDecision::Rejected)
    }

    /// Requests out of the host: the bootloader request restarts the device, and
    /// every other request, the flash restart among them, is refused.
    pub fn control_out(&self, req: &ControlRequest) -> (r: Option<OutDecision>)
        ensures
            r == (if addressed_to(*req, self.iface_num) {
                Some(reset_out_decision(*req))
            } else {
                None
            }),
    {
        if !self.claims(req) {
            return None;
        }
        if req.request == RESET_REQUEST_BOOTSEL {
            Some(OutDecision::ResetToUsbBoot { disable_interface_mask: (req.value & 0x7F) as u32 })
        } else {
            Some(OutDecision::Rejected)
        }
    }
}

/// One function of the composite device.
#[derive(Debug, Clone, Copy, PartialEq, Eq, Structural)]
pub enum InterfaceHandler {
    /// The serial log stream, whose class driver answers its requests.
    Logger { iface_num: u8 },
    /// The vendor reset interface.
    Reset(ResetHandler),
}

/// The interface number that a handler answers for.
pub open spec fn iface_of(h: InterfaceHandler) -> u8 {
    match h {
        InterfaceHandler::Logger { iface_num } => iface_num,
        InterfaceHandler::Reset(r) => r.iface_num,
    }
}

/// A handler's answer to a request out of the host, `None` where it is not its own.
pub open spec fn handler_out(h: InterfaceHandler, req: ControlRequest) -> Option<OutDecision> {
    if !addressed_to(req, iface_of(h)) {
        None
    } else {
        match h {
            InterfaceHandler::Logger { .. } => Some(OutDecision::Delegated),
            InterfaceHandler::Reset(_) => Some(reset_out_decision(req)),
        }
    }
}

/// A handler's answer to a request into the host, `None` where it is not its own.
pub open spec fn handler_in(h: InterfaceHandler, req: ControlRequest) -> Option<InDecision> {
    if !addressed_to(req, iface_of(h)) {
        None
    } else {
        match h {
            InterfaceHandler::Logger { .. } => Some(InDecision::Delegated),
            InterfaceHandler::Reset(_) => Some(InDecision::Rejected),
        }
    }
}

/// Where a control request ends: with the handler at a position that claimed
/// it, or stalled because none did.
#[derive(Debug)]
pub enum Dispatched<T> {
    Claimed { handler: usize, decision: T },
    Stalled,
}

/// The interfaces of the composite device, in registration order.
pub struct Composite {
    pub handlers: Vec<InterfaceHandler>,
}

/// No two interfaces share a number.
pub open spec fn distinct_ifaces(hs: Seq<InterfaceHandler>) -> bool {
    forall|i: int, j: int|
        0 <= i < hs.len() && 0 <= j < hs.len() && i != j ==> iface_of(hs[i]) != iface_of(hs[j])
}

impl InterfaceHandler {
    /// This handler's answer to a request out of the host.
    pub fn control_out(&self, req: &ControlRequest) -> (r: Option<OutDecision>)
        ensures
            r == handler_out(*self, *req),
    {
        match self {
            InterfaceHandler::Logger { iface_num } => {
                if req.request_type == RequestType::Class && req.recipient == Recipient::Interface
                    && req.index == *iface_num as u16 {
                    Some(OutDecision::Delegated)
                } else {
                    None
                }
            },
            InterfaceHandler::Reset(h) => h.control_out(req),
        }
    }

    /// This handler's answer to a request into the host.
    pub fn control_in(&self, req: &ControlRequest) -> (r: Option<InDecision>)
        ensures
            r == handler_in(*self, *req),
    {
        match self {
            InterfaceHandler::Logger { iface_num } => {
                if req.request_type == RequestType::Class && req.recipient == Recipient::Interface
                    && req.index == *iface_num as u16 {
                    Some(InDecision::Delegated)
                } else {
                    None
                }
            },
            InterfaceHandler::Reset(h) => h.control_in(req),
        }
    }
}

impl Composite {
    /// Offers a request out of the host to each handler in order; the first that
    /// claims it answers, and a request that none claims is stalled.
    pub fn dispatch_out(&self, req: &ControlRequest) -> (r: Dispatched<OutDecision>)
        ensures
            r matches Dispatched::Claimed { handler, decision } ==> handler
                < self.handlers@.len() && handler_out(self.handlers@[handler as int], *req)
                == Some(decision) && forall|j: int|
                0 <= j < handler ==> handler_out(#[trigger] self.handlers@[j], *req) is None,
            r is Stalled <==> forall|j: int|
                0 <= j < self.handlers@.len() ==> handler_out(#[trigger] self.handlers@[j], *req) is None,
    {
        let mut i: usize = 0;
        while i < self.handlers.len()
            invariant
                0 <= i <= self.handlers@.len(),
                forall|j: int| 0 <= j < i ==> handler_out(#[trigger] self.handlers@[j], *req) is None,
            decreases self.handlers@.len() - i,
        {
            match self.handlers[i].control_out(req) {
                Some(d) => {
                    return Dispatched::Claimed { handler: i, decision: d };
                },
                None => {},
            }
            i += 1;
        }
        Dispatched::Stalled
    }

    /// Offers a request into the host to each handler in order; the first that
    /// claims it answers, and a request that none claims is stalled.
    pub fn dispatch_in(&self, req: &ControlRequest) -> (r: Dispatched<InDecision>)
        ensures
            r matches Dispatched::Claimed { handler, decision } ==> handler
                < self.handlers@.len() && handler_in(self.handlers@[handler as int], *req)
                == Some(decision) && forall|j: int|
                0 <= j < handler ==> handler_in(#[trigger] self.handlers@[j], *req) is None,
            r is Stalled <==> forall|j: int|
                0 <= j < self.handlers@.len() ==> handler_in(#[trigger] self.handlers@[j], *req) is None,
    {
        let mut i: usize = 0;
        while i < self.handlers.len()
            invariant
                0 <= i <= self.handlers@.len(),
                forall|j: int| 0 <= j < i ==> handler_in(#[trigger] self.handlers@[j], *req) is None,
            decreases self.handlers@.len() - i,
        {
            match self.handlers[i].control_in(req) {
                Some(d) => {
                    return Dispatched::Claimed { handler: i, decision: d };
                },
                None => {},
            }
            i += 1;
        }
        Dispatched::Stalled
    }
}

/// The reset handler never claims a request addressed to another interface
/// number, whatever its request code.
pub proof fn lemma_reset_ignores_other_interfaces(h: ResetHandler, req: ControlRequest)
    requires
        req.index != h.iface_num as u16,
    ensures
        handler_out(InterfaceHandler::Reset(h), req) is None,
        handler_in(InterfaceHandler::Reset(h), req) is None,
{
}

/// Where interface numbers are distinct, at most one handler claims a request.
pub proof fn lemma_single_claimant(hs: Seq<InterfaceHandler>, req: ControlRequest, i: int, j: int)
    requires
        distinct_ifaces(hs),
        0 <= i < hs.len(),
        0 <= j < hs.len(),
        handler_out(hs[i], req) is Some || handler_in(hs[i], req) is Some,
        handler_out(hs[j], req) is Some || handler_in(hs[j], req) is Some,
    ensures
        i == j,
{
}

} // verus!
