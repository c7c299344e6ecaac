//! PD controller related types: port status, commands and responses, and the
//! fixed table that maps a controller's local ports to global ports.

use crate::power::policy::PowerCapability;
use crate::type_c::event::{PortEventKind, PortPending};
use crate::type_c::{Cached, ControllerId, GlobalPortId, LocalPortId, PdError};
use vstd::prelude::*;

verus! {

/// Power contract
#[derive(Copy, Clone, Debug, PartialEq, Eq, Structural)]
pub enum Contract {
    /// Contract as sink
    Sink(PowerCapability),
    /// Contract as source
    Source(PowerCapability),
}

impl Contract {
    /// The capability that the contract was made for.
    pub open spec fn spec_capability(self) -> PowerCapability {
        match self {
            Contract::Sink(capability) => capability,
            Contract::Source(capability) => capability,
        }
    }

    /// The capability that the contract was made for, whichever the role.
    pub fn capability(self) -> (capability: PowerCapability)
        ensures
            capability == self.spec_capability(),
    {
        match self {
            Contract::Sink(capability) => capability,
            Contract::Source(capability) => capability,
        }
    }
}

/// Port status
#[derive(Copy, Clone, Debug, PartialEq, Eq, Structural)]
pub struct PortStatus {
    /// Current power contract
    pub contract: Option<Contract>,
    /// Connection present
    pub connection_present: bool,
    /// Debug connection
    pub debug_connection: bool,
    /// Extended power range is active
    pub epr: bool,
    /// Sink contract that is available on the port
    pub available_sink_contract: Option<PowerCapability>,
    /// The partner offers unconstrained power
    pub unconstrained_power: bool,
}

impl PortStatus {
    /// Status of a port with nothing attached.
    pub open spec fn spec_default() -> Self {
        PortStatus {
            contract: None,
            connection_present: false,
            debug_connection: false,
            epr: false,
            available_sink_contract: None,
            unconstrained_power: false,
        }
    }

    /// Create a status with nothing attached.
    pub fn new() -> (status: Self)
        ensures
            status == Self::spec_default(),
    {
        PortStatus {
            contract: None,
            connection_present: false,
            debug_connection: false,
            epr: false,
            available_sink_contract: None,
            unconstrained_power: false,
        }
    }

    /// Check if the port is connected
    pub fn is_connected(&self) -> (connected: bool)
        ensures
            connected == self.connection_present,
    {
        self.connection_present
    }

    /// Check if a debug accessory is connected
    pub fn is_debug_accessory(&self) -> (debug: bool)
        ensures
            debug == self.debug_connection,
    {
        self.debug_connection
    }
}

impl Default for PortStatus {
    fn default() -> (status: Self)
        ensures
            status == PortStatus::spec_default(),
    {
        PortStatus::new()
    }
}

/// Port-specific command data
#[derive(Copy, Clone, Debug, PartialEq, Eq, Structural)]
pub enum PortCommandData {
    /// Get port status
    PortStatus(Cached),
    /// Get and clear the events
    GetEvent,
    /// Set the maximum sink voltage in mV, or lift the limit
    SetMaxSinkVoltage(Option<u16>),
    /// Tell the port whether power is unconstrained
    SetUnconstrainedPower(bool),
    /// Put the retimer into firmware update state
    RetimerFwUpdateSetState,
    /// Take the retimer out of firmware update state
    RetimerFwUpdateClearState,
    /// Put the retimer into compliance mode
    SetRetimerCompliance,
    /// Reconfigure the retimer
    ReconfigureRetimer,
    /// Clear the dead battery flag
    ClearDeadBatteryFlag,
    /// Execute a data reset
    ExecuteDrst,
}

/// Port-specific commands
#[derive(Copy, Clone, Debug, PartialEq, Eq, Structural)]
pub struct PortCommand {
    /// Port ID
    pub port: GlobalPortId,
    /// Command data
    pub data: PortCommandData,
}

/// Port-specific response data
#[derive(Copy, Clone, Debug, PartialEq, Eq, Structural)]
pub enum PortResponseData {
    /// Command completed with no error
    Complete,
    /// Port status
    PortStatus(PortStatus),
    /// Event
    Event(PortEventKind),
}

impl PortResponseData {
    /// Helper function to convert to a result
    pub fn complete_or_err(self) -> (r: Result<(), PdError>)
        ensures
            r == (if self == PortResponseData::Complete {
                Ok::<(), PdError>(())
            } else {
                Err::<(), PdError>(PdError::InvalidResponse)
            }),
    {
        match self {
            PortResponseData::Complete => Ok(()),
            _ => Err(PdError::InvalidResponse),
        }
    }
}

/// PD controller command-specific data
#[derive(Copy, Clone, Debug, PartialEq, Eq, Structural)]
pub enum InternalCommandData {
    /// Reset the PD controller
    Reset,
    /// Get the controller status
    Status,
    /// Bring the wrapper's state in line with the controller
    SyncState,
}

/// PD controller command
#[derive(Copy, Clone, Debug, PartialEq, Eq, Structural)]
pub enum Command {
    /// Controller specific command
    Controller(InternalCommandData),
    /// Port command
    Port(PortCommand),
    /// UCSI command passthrough
    Lpm(crate::type_c::ucsi::lpm::Command),
}

/// Response to a UCSI command that was passed through to a controller.
#[derive(Copy, Clone, Debug, PartialEq, Eq, Structural)]
pub struct UcsiPassthrough {
    /// Status header
    pub cci: crate::type_c::ucsi::Cci,
    /// Response data
    pub data: Option<crate::type_c::ucsi::lpm::ResponseData>,
}

/// PD controller command response
#[derive(Copy, Clone, Debug, PartialEq, Eq)]
pub enum Response {
    /// Controller response
    Controller(Result<InternalResponseData, PdError>),
    /// UCSI response passthrough
    Ucsi(UcsiPassthrough),
    /// Port response
    Port(Result<PortResponseData, PdError>),
}

/// Controller-specific response data
#[derive(Copy, Clone, Debug, PartialEq, Eq, Structural)]
pub enum InternalResponseData {
    /// Command complete
    Complete,
    /// Controller status
    Status(ControllerStatus),
}

/// Controller status
#[derive(Copy, Clone, Debug, PartialEq, Eq, Structural)]
pub struct ControllerStatus {
    /// Firmware version 0
    pub fw_version0: u32,
    /// Firmware version 1
    pub fw_version1: u32,
}

/// Maximum number of controller ports
pub const MAX_CONTROLLER_PORTS: usize = 2;

/// PD controller: the identifier and the table from local to global ports.
///
/// The table is set at construction and never changes.
#[derive(Clone, Debug)]
pub struct Device {
    id: ControllerId,
    ports: Vec<GlobalPortId>,
}

impl Device {
    /// The table from local to global ports.
    pub closed spec fn spec_ports(&self) -> Seq<GlobalPortId> {
        self.ports@
    }

    /// The controller's identifier.
    pub closed spec fn spec_id(&self) -> ControllerId {
        self.id
    }

    /// The table holds exactly as many ports as a controller has.
    pub open spec fn wf(&self) -> bool {
        self.spec_ports().len() == MAX_CONTROLLER_PORTS
    }

    /// Create a new PD controller struct
    ///
    /// The table must hold exactly `MAX_CONTROLLER_PORTS` ports.
    pub fn new(id: ControllerId, ports: &[GlobalPortId]) -> (r: Result<Self, PdError>)
        ensures
            ports@.len() == MAX_CONTROLLER_PORTS <==> r is Ok,
            r matches Ok(device) ==> device.wf() && device.spec_id() == id && device.spec_ports()
                == ports@,
            r matches Err(e) ==> e == PdError::InvalidParams,
    {
        if ports.len() != MAX_CONTROLLER_PORTS {
            return Err(PdError::InvalidParams);
        }
        let mut table: Vec<GlobalPortId> = Vec::new();
        let mut i: usize = 0;
        while i < ports.len()
            invariant
                i <= ports@.len(),
                table@ == ports@.subrange(0, i as int),
            decreases ports@.len() - i,
        {
            table.push(ports[i]);
            i += 1;
        }
        Ok(Self { id, ports: table })
    }

    /// The controller's identifier
    pub fn id(&self) -> (id: ControllerId)
        ensures
            id == self.spec_id(),
    {
        self.id
    }

    /// Check if this controller has the given port
    pub fn has_port(&self, port: GlobalPortId) -> (found: bool)
        ensures
            found <==> self.spec_ports().contains(port),
    {
        let mut i: usize = 0;
        while i < self.ports.len()
            invariant
                i <= self.ports@.len(),
                forall|j: int| 0 <= j < i ==> self.ports@[j] != port,
            decreases self.ports@.len() - i,
        {
            if self.ports[i].0 == port.0 {
                return true;
            }
            i += 1;
        }
        false
    }

    /// Convert a local port ID to a global port ID
    pub fn lookup_global_port(&self, port: LocalPortId) -> (r: Result<GlobalPortId, PdError>)
        ensures
            r == (if (port.0 as int) < self.spec_ports().len() {
                Ok::<GlobalPortId, PdError>(self.spec_ports()[port.0 as int])
            } else {
                Err::<GlobalPortId, PdError>(PdError::InvalidParams)
            }),
    {
        if port.0 as usize >= self.ports.len() {
            return Err(PdError::InvalidParams);
        }
        Ok(self.ports[port.0 as usize])
    }

    /// Convert a global port ID to the first local port ID that maps to it
    pub fn lookup_local_port(&self, port: GlobalPortId) -> (r: Result<LocalPortId, PdError>)
        requires
            self.spec_ports().len() <= 256,
        ensures
            r matches Ok(local) ==> (local.0 as int) < self.spec_ports().len()
                && self.spec_ports()[local.0 as int] == port && forall|j: int|
                0 <= j < local.0 ==> self.spec_ports()[j] != port,
            r matches Err(e) ==> e == PdError::InvalidParams && !self.spec_ports().contains(port),
    {
        let mut i: usize = 0;
        while i < self.ports.len()
            invariant
                i <= self.ports@.len(),
                self.ports@.len() <= 256,
                forall|j: int| 0 <= j < i ==> self.ports@[j] != port,
            decreases self.ports@.len() - i,
        {
            if self.ports[i].0 == port.0 {
                return Ok(LocalPortId(i as u8));
            }
            i += 1;
        }
        Err(PdError::InvalidParams)
    }

    /// Number of ports on this controller
    pub fn num_ports(&self) -> (n: usize)
        ensures
            n == self.spec_ports().len(),
    {
        self.ports.len()
    }
}

/// Largest number of controllers that can be registered.
pub const MAX_CONTROLLERS: usize = 16;

/// The result of a controller command, given the response that came in time,
/// if one did: a response of another kind is invalid, none is a timeout.
pub open spec fn controller_result(response: Option<Response>) -> Result<
    InternalResponseData,
    PdError,
> {
    match response {
        Some(Response::Controller(result)) => result,
        Some(_) => Err(PdError::InvalidResponse),
        None => Err(PdError::Timeout),
    }
}

/// The result of a port command, given the response that came in time, if one did.
pub open spec fn port_result(response: Option<Response>) -> Result<PortResponseData, PdError> {
    match response {
        Some(Response::Port(result)) => result,
        Some(_) => Err(PdError::InvalidResponse),
        None => Err(PdError::Timeout),
    }
}

/// The result of a UCSI command passed through to a controller, given the
/// response that came in time, if one did.
pub open spec fn ucsi_result(response: Option<Response>) -> Result<UcsiPassthrough, PdError> {
    match response {
        Some(Response::Ucsi(response)) => Ok(response),
        Some(_) => Err(PdError::InvalidResponse),
        None => Err(PdError::Timeout),
    }
}

/// The events in the answer to `GetEvent`; any other data is an invalid response.
pub open spec fn event_of(result: Result<PortResponseData, PdError>) -> Result<
    PortEventKind,
    PdError,
> {
    match result {
        Ok(PortResponseData::Event(event)) => Ok(event),
        Ok(_) => Err(PdError::InvalidResponse),
        Err(e) => Err(e),
    }
}

/// The status in the answer to `PortStatus`; any other data is an invalid response.
pub open spec fn status_of(result: Result<PortResponseData, PdError>) -> Result<
    PortStatus,
    PdError,
> {
    match result {
        Ok(PortResponseData::PortStatus(status)) => Ok(status),
        Ok(_) => Err(PdError::InvalidResponse),
        Err(e) => Err(e),
    }
}

/// Whether `port` is among the ports signaled and not yet taken.
pub open spec fn signaled(events: Option<PortPending>, port: int) -> bool {
    match events {
        Some(flags) => flags.contains(port),
        None => false,
    }
}

/// Type to provide exclusive access to the PD controller context
#[derive(Debug)]
pub struct ContextToken(());

impl ContextToken {
    /// Create a new context token, returning None if this function has been called before
    /// on the context
    pub fn create(context: &mut Context) -> (token: Option<Self>)
        ensures
            token is Some <==> !old(context).spec_token_taken(),
            final(context).spec_token_taken(),
            final(context).spec_controllers() == old(context).spec_controllers(),
            final(context).spec_port_events() == old(context).spec_port_events(),
    {
        if context.token_taken {
            return None;
        }
        context.token_taken = true;
        Some(ContextToken(()))
    }

    /// Take the answer to a controller command
    ///
    /// `response` is what the controller answered in time, `None` if the
    /// time ran out.
    pub fn send_controller_command(&self, response: Option<Response>) -> (r: Result<
        InternalResponseData,
        PdError,
    >)
        ensures
            r == controller_result(response),
    {
        match response {
            Some(Response::Controller(result)) => result,
            Some(_) => Err(PdError::InvalidResponse),
            None => Err(PdError::Timeout),
        }
    }

    /// Reset the given controller: take the answer to the reset
    pub fn reset_controller(&self, response: Option<Response>) -> (r: Result<(), PdError>)
        ensures
            r == (match controller_result(response) {
                Ok(_) => Ok::<(), PdError>(()),
                Err(e) => Err::<(), PdError>(e),
            }),
    {
        match self.send_controller_command(response) {
            Ok(_) => Ok(()),
            Err(e) => Err(e),
        }
    }

    /// Get the status of the given controller: take the answer to `Status`
    pub fn get_controller_status(&self, response: Option<Response>) -> (r: Result<
        ControllerStatus,
        PdError,
    >)
        ensures
            r == (match controller_result(response) {
                Ok(InternalResponseData::Status(status)) => Ok::<ControllerStatus, PdError>(status),
                Ok(_) => Err::<ControllerStatus, PdError>(PdError::InvalidResponse),
                Err(e) => Err::<ControllerStatus, PdError>(e),
            }),
    {
        match self.send_controller_command(response) {
            Ok(InternalResponseData::Status(status)) => Ok(status),
            Ok(_) => Err(PdError::InvalidResponse),
            Err(e) => Err(e),
        }
    }

    /// Take the answer to a port command
    pub fn send_port_command(&self, response: Option<Response>) -> (r: Result<
        PortResponseData,
        PdError,
    >)
        ensures
            r == port_result(response),
    {
        match response {
            Some(Response::Port(result)) => result,
            Some(_) => Err(PdError::InvalidResponse),
            None => Err(PdError::Timeout),
        }
    }

    /// Take the answer to a UCSI command that was passed through to a controller
    pub fn send_port_command_ucsi(&self, response: Option<Response>) -> (r: Result<
        UcsiPassthrough,
        PdError,
    >)
        ensures
            r == ucsi_result(response),
    {
        match response {
            Some(Response::Ucsi(response)) => Ok(response),
            Some(_) => Err(PdError::InvalidResponse),
            None => Err(PdError::Timeout),
        }
    }

    /// Get the unhandled events for the given port: take the answer to `GetEvent`
    pub fn get_port_event(&self, response: Option<Response>) -> (r: Result<PortEventKind, PdError>)
        ensures
            r == event_of(port_result(response)),
    {
        match self.send_port_command(response) {
            Ok(PortResponseData::Event(event)) => Ok(event),
            Ok(_) => Err(PdError::InvalidResponse),
            Err(e) => Err(e),
        }
    }

    /// Get the current port status: take the answer to `PortStatus`
    pub fn get_port_status(&self, response: Option<Response>) -> (r: Result<PortStatus, PdError>)
        ensures
            r == status_of(port_result(response)),
    {
        match self.send_port_command(response) {
            Ok(PortResponseData::PortStatus(status)) => Ok(status),
            Ok(_) => Err(PdError::InvalidResponse),
            Err(e) => Err(e),
        }
    }
}

/// Context for managing PD controllers: the registered controllers, in
/// the order of their registration, and the ports that they have signaled.
#[derive(Debug)]
pub struct Context {
    controllers: Vec<Device>,
    port_events: Option<PortPending>,
    token_taken: bool,
}

impl Context {
    /// The registered controllers.
    pub closed spec fn spec_controllers(&self) -> Seq<Device> {
        self.controllers@
    }

    /// The ports signaled and not yet taken.
    pub closed spec fn spec_port_events(&self) -> Option<PortPending> {
        self.port_events
    }

    /// Whether the token of the context was handed out.
    pub closed spec fn spec_token_taken(&self) -> bool {
        self.token_taken
    }

    /// At most `MAX_CONTROLLERS` controllers are registered, each with a full table.
    pub open spec fn wf(&self) -> bool {
        &&& self.spec_controllers().len() <= MAX_CONTROLLERS
        &&& forall|i: int|
            0 <= i < self.spec_controllers().len() ==> (#[trigger] self.spec_controllers()[i]).wf()
    }

    /// `index` is the first registered controller that has the port.
    pub open spec fn is_node_of_port(&self, index: int, port: GlobalPortId) -> bool {
        &&& 0 <= index < self.spec_controllers().len()
        &&& self.spec_controllers()[index].spec_ports().contains(port)
        &&& forall|other: int|
            0 <= other < index ==> !(#[trigger] self.spec_controllers()[other]).spec_ports().contains(
                port,
            )
    }

    /// `index` is the first registered controller with the identifier.
    pub open spec fn is_node_of_id(&self, index: int, id: ControllerId) -> bool {
        &&& 0 <= index < self.spec_controllers().len()
        &&& self.spec_controllers()[index].spec_id() == id
        &&& forall|other: int|
            0 <= other < index ==> (#[trigger] self.spec_controllers()[other]).spec_id() != id
    }

    /// Initialize the PD controller context: no controller, no event, the
    /// token not handed out
    pub fn new() -> (context: Self)
        ensures
            context.wf(),
            context.spec_controllers().len() == 0,
            context.spec_port_events() is None,
            !context.spec_token_taken(),
    {
        Context { controllers: Vec::new(), port_events: None, token_taken: false }
    }

    /// Register a PD controller
    ///
    /// The controller goes behind those registered before. With
    /// `MAX_CONTROLLERS` controllers registered, no more are taken.
    pub fn register_controller(&mut self, controller: Device) -> (r: Result<(), PdError>)
        requires
            old(self).wf(),
            controller.wf(),
        ensures
            final(self).wf(),
            final(self).spec_port_events() == old(self).spec_port_events(),
            final(self).spec_token_taken() == old(self).spec_token_taken(),
            r is Ok <==> old(self).spec_controllers().len() < MAX_CONTROLLERS,
            r is Ok ==> final(self).spec_controllers() == old(self).spec_controllers().push(
                controller,
            ),
            r matches Err(e) ==> e == PdError::InvalidParams && final(self).spec_controllers()
                == old(self).spec_controllers(),
    {
        if self.controllers.len() >= MAX_CONTROLLERS {
            return Err(PdError::InvalidParams);
        }
        self.controllers.push(controller);
        Ok(())
    }

    /// Number of registered ports, over all controllers
    pub fn get_num_ports(&self) -> (n: usize)
        requires
            self.wf(),
        ensures
            n == self.spec_controllers().len() * MAX_CONTROLLER_PORTS,
    {
        let mut n: usize = 0;
        let mut i: usize = 0;
        while i < self.controllers.len()
            invariant
                self.wf(),
                i <= self.controllers@.len(),
                n == i * MAX_CONTROLLER_PORTS,
            decreases self.controllers@.len() - i,
        {
            n += self.controllers[i].num_ports();
            i += 1;
        }
        n
    }

    /// The registered controller at `index`
    pub fn controller(&self, index: usize) -> (device: Option<&Device>)
        ensures
            match device {
                Some(device) => index < self.spec_controllers().len() && *device
                    == self.spec_controllers()[index as int],
                None => index >= self.spec_controllers().len(),
            },
    {
        if index < self.controllers.len() {
            Some(&self.controllers[index])
        } else {
            None
        }
    }

    /// Find the controller that has the given port
    pub fn find_node_by_port(&self, port_id: GlobalPortId) -> (r: Result<usize, PdError>)
        ensures
            match r {
                Ok(index) => self.is_node_of_port(index as int, port_id),
                Err(e) => e == PdError::InvalidPort && forall|i: int|
                    0 <= i < self.spec_controllers().len() ==> !(
                    #[trigger] self.spec_controllers()[i]).spec_ports().contains(port_id),
            },
    {
        let mut i: usize = 0;
        while i < self.controllers.len()
            invariant
                i <= self.controllers@.len(),
                forall|j: int|
                    0 <= j < i ==> !(#[trigger] self.controllers@[j]).spec_ports().contains(port_id),
            decreases self.controllers@.len() - i,
        {
            if self.controllers[i].has_port(port_id) {
                return Ok(i);
            }
            i += 1;
        }
        Err(PdError::InvalidPort)
    }

    /// Find the controller with the given identifier
    pub fn find_controller(&self, controller_id: ControllerId) -> (r: Result<usize, PdError>)
        ensures
            match r {
                Ok(index) => self.is_node_of_id(index as int, controller_id),
                Err(e) => e == PdError::InvalidController && forall|i: int|
                    0 <= i < self.spec_controllers().len() ==> (
                    #[trigger] self.spec_controllers()[i]).spec_id() != controller_id,
            },
    {
        let mut i: usize = 0;
        while i < self.controllers.len()
            invariant
                i <= self.controllers@.len(),
                forall|j: int| 0 <= j < i ==> (#[trigger] self.controllers@[j]).spec_id()
                    != controller_id,
            decreases self.controllers@.len() - i,
        {
            if self.controllers[i].id().0 == controller_id.0 {
                return Ok(i);
            }
            i += 1;
        }
        Err(PdError::InvalidController)
    }

    /// Notify of port events
    ///
    /// The ports join those signaled and not yet taken. Signaling no port
    /// changes nothing.
    pub fn notify_ports(&mut self, events: PortPending)
        ensures
            final(self).spec_controllers() == old(self).spec_controllers(),
            final(self).spec_token_taken() == old(self).spec_token_taken(),
            events.spec_is_none() ==> final(self).spec_port_events() == old(self).spec_port_events(),
            !events.spec_is_none() ==> final(self).spec_port_events() is Some,
            !events.spec_is_none() ==> forall|port: int| #[trigger]
                signaled(final(self).spec_port_events(), port) == (events.contains(port)
                    || signaled(old(self).spec_port_events(), port)),
    {
        if events.is_none() {
            return ;
        }
        self.port_events =
        Some(
            match self.port_events {
                Some(flags) => flags.union(events),
                None => events,
            },
        );
    }

    /// Get the current port events, leaving none behind
    ///
    /// `None` means that no port was signaled since the events were taken
    /// last: there is nothing until a controller notifies again.
    pub fn get_unhandled_events(&mut self) -> (events: Option<PortPending>)
        ensures
            events == old(self).spec_port_events(),
            final(self).spec_port_events() is None,
            final(self).spec_controllers() == old(self).spec_controllers(),
            final(self).spec_token_taken() == old(self).spec_token_taken(),
    {
        let events = self.port_events;
        self.port_events = None;
        events
    }
}

} // verus!
