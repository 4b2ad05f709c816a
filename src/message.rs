//! The tagged messages carried over the stream, and their mathematical views.

use vstd::prelude::*;
use vstd::string::StringExecFns;

verus! {

/// Identifier of a package, used only to correlate a reply with its request.
pub type PackageId = u64;

/// Text of the error answered to an activation whose hit is not in the
/// current generation.
pub open spec fn not_found_text() -> Seq<char> {
    "cannot find data by hit"@
}

/// The error text answered to an activation whose hit is not found.
pub fn not_found_message() -> (r: String)
    ensures
        r@ == not_found_text(),
{
    String::from_str("cannot find data by hit")
}

/// One streamed search result: an identifier that is stable within one
/// generation, and the fields shown to the user.
#[derive(Debug)]
pub struct Hit {
    pub id: u64,
    pub name: String,
    pub description: String,
}

/// A command sent by the host.
#[derive(Debug)]
pub enum Command {
    Quit,
    Abort,
    GetData(String),
    Activate(u64),
}

/// The payload of a package: exactly one of a command, a hit or a result.
#[derive(Debug)]
pub enum Payload {
    Command(Command),
    Hit(Hit),
    /// The outcome of the request whose package id is the first field.
    Result(PackageId, Result<(), String>),
}

/// The unit of transmission.
#[derive(Debug)]
pub struct Package {
    pub id: PackageId,
    pub payload: Payload,
}

pub struct HitV {
    pub id: u64,
    pub name: Seq<char>,
    pub description: Seq<char>,
}

pub enum CommandV {
    Quit,
    Abort,
    GetData(Seq<char>),
    Activate(u64),
}

pub enum PayloadV {
    Command(CommandV),
    Hit(HitV),
    Result(PackageId, Result<(), Seq<char>>),
}

pub struct PackageV {
    pub id: PackageId,
    pub payload: PayloadV,
}

impl View for Hit {
    type V = HitV;

    open spec fn view(&self) -> HitV {
        HitV { id: self.id, name: self.name@, description: self.description@ }
    }
}

impl View for Command {
    type V = CommandV;

    open spec fn view(&self) -> CommandV {
        match self {
            Command::Quit => CommandV::Quit,
            Command::Abort => CommandV::Abort,
            Command::GetData(q) => CommandV::GetData(q@),
            Command::Activate(h) => CommandV::Activate(*h),
        }
    }
}

pub open spec fn outcome_view(o: Result<(), String>) -> Result<(), Seq<char>> {
    match o {
        Ok(()) => Ok(()),
        Err(m) => Err(m@),
    }
}

impl View for Payload {
    type V = PayloadV;

    open spec fn view(&self) -> PayloadV {
        match self {
            Payload::Command(c) => PayloadV::Command(c@),
            Payload::Hit(h) => PayloadV::Hit(h@),
            Payload::Result(answered, outcome) => PayloadV::Result(*answered, outcome_view(*outcome)),
        }
    }
}

impl View for Package {
    type V = PackageV;

    open spec fn view(&self) -> PackageV {
        PackageV { id: self.id, payload: self.payload@ }
    }
}

/// The package that answers request `answered` with `outcome`.
pub open spec fn result_package(id: PackageId, answered: PackageId, outcome: Result<(), Seq<char>>) -> PackageV {
    PackageV { id, payload: PayloadV::Result(answered, outcome) }
}

/// The end-of-stream marker: a `Command(Abort)` sent by the provider.
pub open spec fn end_marker(id: PackageId) -> PackageV {
    PackageV { id, payload: PayloadV::Command(CommandV::Abort) }
}

/// The package that carries one hit.
pub open spec fn hit_package(id: PackageId, hit: HitV) -> PackageV {
    PackageV { id, payload: PayloadV::Hit(hit) }
}

impl Hit {
    pub fn new(id: u64, name: String, description: String) -> (r: Hit)
        ensures
            r.id == id,
            r.name == name,
            r.description == description,
    {
        Hit { id, name, description }
    }

    /// A copy of this hit, equal to it field by field.
    pub fn duplicate(&self) -> (r: Hit)
        ensures
            r == *self,
            r@ == self@,
    {
        Hit { id: self.id, name: self.name.clone(), description: self.description.clone() }
    }
}

impl Package {
    pub fn new(id: PackageId, payload: Payload) -> (r: Package)
        ensures
            r.id == id,
            r.payload == payload,
    {
        Package { id, payload }
    }

    /// The package that answers request `answered` with `outcome`.
    pub fn result(id: PackageId, answered: PackageId, outcome: Result<(), String>) -> (r: Package)
        ensures
            r@ == result_package(id, answered, outcome_view(outcome)),
    {
        Package { id, payload: Payload::Result(answered, outcome) }
    }

    /// The end-of-stream marker.
    pub fn end_marker(id: PackageId) -> (r: Package)
        ensures
            r@ == end_marker(id),
    {
        Package { id, payload: Payload::Command(Command::Abort) }
    }

    pub fn get_id(&self) -> (r: PackageId)
        ensures
            r == self.id,
    {
        self.id
    }
}

} // verus!
