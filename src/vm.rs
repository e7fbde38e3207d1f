use vstd::prelude::*;
use vstd::string::StringExecFns;

verus! {

/// The boot parameters a VM gets when its creation request names none.
pub open spec fn spec_default_kernel_params() -> Seq<char> {
    "console=ttyS0 reboot=k panic=1 pci=off"@
}

pub fn default_kernel_params() -> (r: String)
    ensures
        r@ == spec_default_kernel_params(),
{
    "console=ttyS0 reboot=k panic=1 pci=off".to_owned()
}

/// How a VM obtains its network address.
#[derive(Debug, Clone, Copy, PartialEq, Eq, Structural)]
pub enum NetworkMode {
    Dhcp,
    StaticIp,
}

impl NetworkMode {
    /// The canonical lowercase encoding, used in JSON and in the stored column.
    pub open spec fn spec_str(self) -> Seq<char> {
        match self {
            NetworkMode::Dhcp => "dhcp"@,
            NetworkMode::StaticIp => "static_ip"@,
        }
    }

    pub fn as_str(&self) -> (r: String)
        ensures
            r@ == self.spec_str(),
    {
        match self {
            NetworkMode::Dhcp => "dhcp".to_owned(),
            NetworkMode::StaticIp => "static_ip".to_owned(),
        }
    }

    /// Decodes the canonical encoding; any other text is rejected.
    pub fn from_str(input: &str) -> (r: Result<NetworkMode, ()>)
        ensures
            input@ == "dhcp"@ ==> r == Ok::<NetworkMode, ()>(NetworkMode::Dhcp),
            input@ == "static_ip"@ ==> r == Ok::<NetworkMode, ()>(NetworkMode::StaticIp),
            input@ != "dhcp"@ && input@ != "static_ip"@ ==> r == Err::<NetworkMode, ()>(()),
    {
        proof {
            reveal_strlit("dhcp");
            reveal_strlit("static_ip");
            assert("dhcp"@.len() != "static_ip"@.len());
        }
        let s = input.to_owned();
        if s == "dhcp".to_owned() {
            Ok(NetworkMode::Dhcp)
        } else if s == "static_ip".to_owned() {
            Ok(NetworkMode::StaticIp)
        } else {
            Err(())
        }
    }
}

/// A request to create a VM; it only exists to be normalized into a `Vm`.
#[derive(Debug)]
pub struct NewVm {
    pub name: String,
    pub vcpu: i32,
    pub memory: i32,
    pub kernel: u128,
    pub network_mode: Option<NetworkMode>,
    pub address: Option<String>,
    pub kernel_params: Option<String>,
}

/// A persisted VM record. Identifiers are 128-bit UUIDs held as integers.
#[derive(Debug)]
pub struct Vm {
    pub id: u128,
    pub name: String,
    pub status: i32,
    pub host_id: Option<u128>,
    pub vcpu: i32,
    pub memory: i32,
    pub address: Option<String>,
    pub network_mode: Option<String>,
    pub kernel_params: String,
    pub kernel: u128,
}

/// The kinds of entity a lookup can miss.
#[derive(Debug, Clone, Copy, PartialEq, Eq, Structural)]
pub enum EntityType {
    Vm,
}

/// Failures of normalization and of the repository.
#[derive(Debug, Clone, PartialEq, Eq)]
pub enum ModelError {
    /// A lookup by id found nothing.
    NotFound(EntityType, u128),
    /// A static address was requested without an address.
    MissingAddress,
    /// The store refused a write: the id is already taken.
    DuplicateVm(u128),
    /// The store refused a write: this drive is already attached to this VM.
    DuplicateAttachment(u128, u128),
    /// The database refused or failed an operation; the text is its own.
    StorageFailure(String),
}

pub open spec fn pow16(n: nat) -> nat
    decreases n,
{
    if n == 0 {
        1
    } else {
        16 * pow16((n - 1) as nat)
    }
}

/// The 32 lowercase hex digits of an identifier, most significant first.
pub open spec fn hex_digits(id: u128) -> Seq<char> {
    Seq::new(32, |i: int| "0123456789abcdef"@[((id as nat / pow16((31 - i) as nat)) % 16) as int])
}

/// The hyphenated text of a UUID: hex digits grouped 8-4-4-4-12.
pub open spec fn uuid_text(id: u128) -> Seq<char> {
    let h = hex_digits(id);
    h.subrange(0, 8) + "-"@ + h.subrange(8, 12) + "-"@ + h.subrange(12, 16) + "-"@ + h.subrange(
        16,
        20,
    ) + "-"@ + h.subrange(20, 32)
}

/// Relies on uuid's `Uuid::from_u128` (big-endian) and its `Display`, which
/// writes the lowercase hyphenated form.
#[verifier::external_body]
fn id_text(id: u128) -> (r: String)
    ensures
        r@ == uuid_text(id),
{
    uuid::Uuid::from_u128(id).to_string()
}

impl ModelError {
    pub open spec fn spec_message(self) -> Seq<char> {
        match self {
            ModelError::NotFound(_, id) => "vm "@ + uuid_text(id) + " not found"@,
            ModelError::MissingAddress => "network mode static_ip requires an address"@,
            ModelError::DuplicateVm(id) => "vm "@ + uuid_text(id) + " already exists"@,
            ModelError::DuplicateAttachment(vm_id, drive_id) => "drive "@ + uuid_text(drive_id)
                + " is already attached to vm "@ + uuid_text(vm_id),
            ModelError::StorageFailure(cause) => cause@,
        }
    }

    /// The text reported to a client for this error.
    pub fn message(&self) -> (r: String)
        ensures
            r@ == self.spec_message(),
    {
        match self {
            ModelError::NotFound(_, id) => {
                let t = id_text(*id);
                "vm ".to_owned().concat(t.as_str()).concat(" not found")
            },
            ModelError::MissingAddress => "network mode static_ip requires an address".to_owned(),
            ModelError::DuplicateVm(id) => {
                let t = id_text(*id);
                "vm ".to_owned().concat(t.as_str()).concat(" already exists")
            },
            ModelError::DuplicateAttachment(vm_id, drive_id) => {
                let d = id_text(*drive_id);
                let v = id_text(*vm_id);
                "drive ".to_owned().concat(d.as_str()).concat(" is already attached to vm ").concat(
                    v.as_str(),
                )
            },
            ModelError::StorageFailure(cause) => cause.clone(),
        }
    }
}

/// The text of an optional string field.
pub open spec fn opt_str_view(o: Option<String>) -> Option<Seq<char>> {
    match o {
        Some(s) => Some(s@),
        None => None,
    }
}

fn clone_opt_str(o: &Option<String>) -> (r: Option<String>)
    ensures
        r == *o,
{
    match o {
        Some(s) => Some(s.clone()),
        None => None,
    }
}

/// Whether normalizing `nv` fails: a static address was asked for and none given.
pub open spec fn lacks_address(nv: NewVm) -> bool {
    nv.network_mode == Some(NetworkMode::StaticIp) && nv.address is None
}

/// The address a normalized VM stores.
pub open spec fn normalized_address(nv: NewVm) -> Seq<char> {
    match nv.network_mode {
        Some(NetworkMode::StaticIp) => nv.address->Some_0@,
        _ => Seq::empty(),
    }
}

/// The kernel parameters a normalized VM stores: the request's, verbatim, or the default.
pub open spec fn normalized_kernel_params(nv: NewVm) -> Seq<char> {
    match nv.kernel_params {
        Some(kp) => kp@,
        None => spec_default_kernel_params(),
    }
}

/// `vm` is the normalized form of `nv`, leaving aside its identifier.
pub open spec fn is_normalized_form(vm: Vm, nv: NewVm) -> bool {
    &&& vm.name@ == nv.name@
    &&& vm.status == 0
    &&& vm.host_id is None
    &&& vm.vcpu == nv.vcpu
    &&& vm.memory == nv.memory
    &&& vm.kernel == nv.kernel
    &&& opt_str_view(vm.network_mode) == match nv.network_mode {
        Some(m) => Some(m.spec_str()),
        None => None::<Seq<char>>,
    }
    &&& opt_str_view(vm.address) == Some(normalized_address(nv))
    &&& vm.kernel_params@ == normalized_kernel_params(nv)
}

/// Relies on uuid's `Uuid::new_v4`, read back with `as_u128`: a fresh random
/// identifier. Nothing is promised of its value. `new_v4` panics when the
/// operating system's random source fails, a failure of the environment that
/// no precondition can rule out.
#[verifier::external_body]
pub(crate) fn fresh_id() -> (r: u128) {
    uuid::Uuid::new_v4().as_u128()
}

impl Vm {
    /// A field-by-field copy of the record.
    pub fn duplicate(&self) -> (r: Vm)
        ensures
            r == *self,
    {
        Vm {
            id: self.id,
            name: self.name.clone(),
            status: self.status,
            host_id: self.host_id,
            vcpu: self.vcpu,
            memory: self.memory,
            address: clone_opt_str(&self.address),
            network_mode: clone_opt_str(&self.network_mode),
            kernel_params: self.kernel_params.clone(),
            kernel: self.kernel,
        }
    }

    /// Normalizes a creation request into a record with the given identifier.
    pub fn from_new_with_id(nv: &NewVm, id: u128) -> (r: Result<Vm, ModelError>)
        ensures
            r is Err <==> lacks_address(*nv),
            r matches Err(e) ==> e == ModelError::MissingAddress,
            r matches Ok(vm) ==> vm.id == id && is_normalized_form(vm, *nv),
    {
        let network_mode: Option<String>;
        let address: String;
        match &nv.network_mode {
            Some(n) => {
                network_mode = Some(n.as_str());
                match n {
                    NetworkMode::Dhcp => {
                        address = String::new();
                    },
                    NetworkMode::StaticIp => {
                        match &nv.address {
                            Some(a) => {
                                address = a.clone();
                            },
                            None => {
                                return Err(ModelError::MissingAddress);
                            },
                        }
                    },
                }
            },
            None => {
                network_mode = None;
                address = String::new();
            },
        }
        let kernel_params = match &nv.kernel_params {
            Some(kp) => kp.clone(),
            None => default_kernel_params(),
        };
        Ok(
            Vm {
                id,
                name: nv.name.clone(),
                status: 0,
                host_id: None,
                vcpu: nv.vcpu,
                memory: nv.memory,
                kernel: nv.kernel,
                address: Some(address),
                network_mode,
                kernel_params,
            },
        )
    }

    /// The outcome of looking a VM up by id: a missing row is `NotFound`.
    pub fn from_lookup(id: u128, row: Option<Vm>) -> (r: Result<Vm, ModelError>)
        ensures
            r == match row {
                Some(vm) => Ok(vm),
                None => Err(ModelError::NotFound(EntityType::Vm, id)),
            },
    {
        match row {
            Some(vm) => Ok(vm),
            None => Err(ModelError::NotFound(EntityType::Vm, id)),
        }
    }

    /// Normalizes a creation request into a record with a freshly generated identifier.
    pub fn from_new(nv: &NewVm) -> (r: Result<Vm, ModelError>)
        ensures
            r is Err <==> lacks_address(*nv),
            r matches Err(e) ==> e == ModelError::MissingAddress,
            r matches Ok(vm) ==> is_normalized_form(vm, *nv),
    {
        let id = fresh_id();
        Vm::from_new_with_id(nv, id)
    }
}

} // verus!
