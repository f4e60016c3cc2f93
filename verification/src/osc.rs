//! OSC with VRChat: the messages exchanged with the user interface, the
//! whitelist of addresses that the core listens to, the conversion of
//! arguments in both directions, and the addresses of the VRChat services
//! found on the network. The caller owns the sockets.
use crate::text::{
    parse_i32, parse_i32_spec, push_signed_decimal, seq_starts_with, signed_decimal,
    str_starts_with,
};
use vstd::prelude::*;

verus! {

/// The argument types that the user interface can send and receive.
#[derive(PartialEq, Eq, Clone, Copy, Debug, Structural)]
pub enum SupportedOscType {
    Int,
    Float,
    Boolean,
    String,
}

impl SupportedOscType {
    /// The number under which the user interface exchanges the type.
    pub fn code(self) -> (res: u8)
        ensures
            res == self.code_of(),
    {
        match self {
            SupportedOscType::Int => 1,
            SupportedOscType::Float => 2,
            SupportedOscType::Boolean => 3,
            SupportedOscType::String => 4,
        }
    }

    /// The type with the given number, if any.
    pub fn from_code(code: u8) -> (res: Option<SupportedOscType>)
        ensures
            res matches Some(t) ==> t.code_of() == code,
            res is None <==> !(1 <= code <= 4),
    {
        match code {
            1 => Some(SupportedOscType::Int),
            2 => Some(SupportedOscType::Float),
            3 => Some(SupportedOscType::Boolean),
            4 => Some(SupportedOscType::String),
            _ => None,
        }
    }

    pub open spec fn code_of(self) -> u8 {
        match self {
            SupportedOscType::Int => 1u8,
            SupportedOscType::Float => 2u8,
            SupportedOscType::Boolean => 3u8,
            SupportedOscType::String => 4u8,
        }
    }
}

/// One argument value as the user interface receives it: its type and its
/// text.
#[derive(Clone, Debug)]
pub struct OSCValue {
    pub kind: SupportedOscType,
    pub value: Option<String>,
}

/// A message received from VRChat, for the user interface.
#[derive(Clone, Debug)]
pub struct OSCMessage {
    pub address: String,
    pub values: Vec<OSCValue>,
}

/// Who may access an advertised OSC method.
#[derive(PartialEq, Eq, Clone, Copy, Debug, Structural)]
pub enum OSCMethodAccessType {
    /// External applications can only write to this value.
    Write,
    /// External applications can only read this value.
    Read,
    /// External applications can both read from and write to this value.
    ReadWrite,
}

/// An OSC method that the user interface asks to advertise.
#[derive(Clone, Debug)]
pub struct OSCMethod {
    pub address: String,
    pub ad_type: OSCMethodAccessType,
    /// Only required for "Read" advertisement types.
    pub value_type: Option<SupportedOscType>,
    /// Only required for "Read" advertisement types (serialized).
    pub value: Option<String>,
    /// Optional human readable description.
    pub description: Option<String>,
}

/// An OSC argument on the wire. A 32-bit float travels as its decimal text,
/// which the caller renders or parses.
#[derive(Clone, Debug)]
pub enum OscArg {
    Int(i32),
    Float(String),
    String(String),
    Bool(bool),
    /// Any other OSC type.
    Other,
}

/// The text of a boolean, as `bool`'s `Display` writes it.
pub open spec fn bool_text(b: bool) -> Seq<char> {
    if b {
        "true"@
    } else {
        "false"@
    }
}

/// `v` is the value that the user interface receives for the argument `a`.
pub open spec fn value_of_arg(a: OscArg, v: OSCValue) -> bool {
    match a {
        OscArg::Int(i) => v.kind == SupportedOscType::Int && has_text(v.value, signed_decimal(i as int)),
        OscArg::Float(f) => v.kind == SupportedOscType::Float && has_text(v.value, f@),
        OscArg::String(s) => v.kind == SupportedOscType::String && has_text(v.value, s@),
        OscArg::Bool(b) => v.kind == SupportedOscType::Boolean && has_text(v.value, bool_text(b)),
        OscArg::Other => false,
    }
}

/// The optional text is present and equal to `t`.
pub open spec fn has_text(o: Option<String>, t: Seq<char>) -> bool {
    match o {
        Some(s) => s@ == t,
        None => false,
    }
}

fn bool_string(b: bool) -> (res: String)
    ensures
        res@ == bool_text(b),
{
    if b {
        "true".to_owned()
    } else {
        "false".to_owned()
    }
}

/// The value that the user interface receives for one argument.
pub fn value_from_arg(a: OscArg) -> (res: OSCValue)
    requires
        !(a is Other),
    ensures
        value_of_arg(a, res),
{
    match a {
        OscArg::Int(i) => {
            let mut t = String::new();
            push_signed_decimal(&mut t, i);
            assert(t@ =~= signed_decimal(i as int));
            OSCValue { kind: SupportedOscType::Int, value: Some(t) }
        },
        OscArg::Float(f) => OSCValue { kind: SupportedOscType::Float, value: Some(f) },
        OscArg::String(s) => OSCValue { kind: SupportedOscType::String, value: Some(s) },
        OscArg::Bool(b) => OSCValue { kind: SupportedOscType::Boolean, value: Some(bool_string(b)) },
        OscArg::Other => OSCValue { kind: SupportedOscType::String, value: None },
    }
}

/// Whether some entry of `entries` is `addr`.
pub open spec fn listed(entries: Seq<String>, addr: Seq<char>) -> bool {
    exists|i: int| 0 <= i < entries.len() && (#[trigger] entries[i])@ == addr
}

/// The addresses that the core listens to. Each whitelist that the user
/// interface sends is added to the ones before.
pub struct OscWhitelist {
    pub entries: Vec<String>,
}

impl OscWhitelist {
    /// An empty whitelist.
    pub fn new() -> (res: OscWhitelist)
        ensures
            res.entries@.len() == 0,
    {
        OscWhitelist { entries: Vec::new() }
    }

    /// Adds the given addresses after the ones already listed.
    pub fn extend(&mut self, whitelist: &Vec<String>)
        ensures
            final(self).entries@ == old(self).entries@ + whitelist@,
    {
        let mut i: usize = 0;
        while i < whitelist.len()
            invariant
                i <= whitelist@.len(),
                self.entries@ == old(self).entries@ + whitelist@.take(i as int),
            decreases whitelist@.len() - i,
        {
            self.entries.push(whitelist[i].clone());
            assert(whitelist@.take(i + 1) =~= whitelist@.take(i as int).push(whitelist@[i as int]));
            i = i + 1;
        }
        assert(whitelist@.take(whitelist@.len() as int) =~= whitelist@);
    }

    /// Whether the address is listed.
    pub fn contains(&self, addr: &String) -> (res: bool)
        ensures
            res == listed(self.entries@, addr@),
    {
        let mut i: usize = 0;
        while i < self.entries.len()
            invariant
                i <= self.entries@.len(),
                forall|k: int| 0 <= k < i ==> (#[trigger] self.entries@[k])@ != addr@,
            decreases self.entries@.len() - i,
        {
            if self.entries[i] == *addr {
                return true;
            }
            i = i + 1;
        }
        false
    }

    /// Whether a received message is passed on: its address is listed and it
    /// carries at most one argument.
    pub fn accepts(&self, addr: &String, arg_count: usize) -> (res: bool)
        ensures
            res == (listed(self.entries@, addr@) && arg_count <= 1),
    {
        arg_count <= 1 && self.contains(addr)
    }

    /// The message that the user interface receives for a message from
    /// VRChat, or `None` when it is not passed on.
    pub fn incoming_message(&self, addr: String, args: Vec<OscArg>) -> (res: Option<OSCMessage>)
        requires
            listed(self.entries@, addr@) && args@.len() <= 1 ==> forall|i: int|
                0 <= i < args@.len() ==> !(#[trigger] args@[i] is Other),
        ensures
            res is Some <==> (listed(self.entries@, addr@) && args@.len() <= 1),
            res matches Some(m) ==> m.address@ == addr@ && m.values@.len() == args@.len() && forall|
                i: int,
            |
                0 <= i < args@.len() ==> value_of_arg(args@[i], #[trigger] m.values@[i]),
    {
        if !self.accepts(&addr, args.len()) {
            return None;
        }
        let mut values: Vec<OSCValue> = Vec::new();
        let mut i: usize = 0;
        while i < args.len()
            invariant
                i <= args@.len(),
                values@.len() == i,
                forall|k: int| 0 <= k < args@.len() ==> !(#[trigger] args@[k] is Other),
                forall|k: int| 0 <= k < i ==> value_of_arg(args@[k], #[trigger] values@[k]),
            decreases args@.len() - i,
        {
            let a = args[i].clone_arg();
            values.push(value_from_arg(a));
            i = i + 1;
        }
        Some(OSCMessage { address: addr, values })
    }
}

impl OscArg {
    /// A copy of the argument.
    pub fn clone_arg(&self) -> (res: OscArg)
        ensures
            res == *self,
    {
        match self {
            OscArg::Int(i) => OscArg::Int(*i),
            OscArg::Float(f) => OscArg::Float(f.clone()),
            OscArg::String(s) => OscArg::String(s.clone()),
            OscArg::Bool(b) => OscArg::Bool(*b),
            OscArg::Other => OscArg::Other,
        }
    }
}

/// Whether a value can be sent as an argument of the given type: integers
/// must parse as `i32`, booleans must read "true" or "false". Floats are
/// parsed by the caller.
pub open spec fn sendable(t: SupportedOscType, value: Seq<char>) -> bool {
    match t {
        SupportedOscType::Int => parse_i32_spec(value) is Some,
        SupportedOscType::Boolean => value == "true"@ || value == "false"@,
        _ => true,
    }
}

/// Whether the values can be sent with the given types: every value has a
/// type at its position, and is sendable as that type.
pub open spec fn arguments_sendable(types: Seq<SupportedOscType>, values: Seq<String>) -> bool {
    &&& values.len() <= types.len()
    &&& forall|i: int| 0 <= i < values.len() ==> sendable(types[i], (#[trigger] values[i])@)
}

/// `a` is the argument sent for `value` as a `t`.
pub open spec fn arg_for(t: SupportedOscType, value: Seq<char>, a: OscArg) -> bool {
    match t {
        SupportedOscType::Int => a matches OscArg::Int(i) && parse_i32_spec(value) == Some(i as int),
        SupportedOscType::Float => a matches OscArg::Float(f) && f@ == value,
        SupportedOscType::Boolean => a matches OscArg::Bool(b) && b == (value == "true"@),
        SupportedOscType::String => a matches OscArg::String(s) && s@ == value,
    }
}

fn is_true_text(value: &String) -> (res: Option<bool>)
    ensures
        res == (if value@ == "true"@ {
            Some(true)
        } else if value@ == "false"@ {
            Some(false)
        } else {
            None::<bool>
        }),
{
    let t = "true".to_owned();
    let f = "false".to_owned();
    if *value == t {
        Some(true)
    } else if *value == f {
        Some(false)
    } else {
        None
    }
}

/// Whether the values can be sent with the given types.
pub fn osc_arguments_valid(types: &Vec<SupportedOscType>, values: &Vec<String>) -> (res: bool)
    ensures
        res == arguments_sendable(types@, values@),
{
    if values.len() > types.len() {
        return false;
    }
    let mut i: usize = 0;
    while i < values.len()
        invariant
            values@.len() <= types@.len(),
            i <= values@.len(),
            forall|k: int| 0 <= k < i ==> sendable(types@[k], (#[trigger] values@[k])@),
        decreases values@.len() - i,
    {
        let ok = match types[i] {
            SupportedOscType::Int => parse_i32(values[i].as_str()).is_some(),
            SupportedOscType::Boolean => is_true_text(&values[i]).is_some(),
            _ => true,
        };
        if !ok {
            return false;
        }
        i = i + 1;
    }
    true
}

/// The arguments sent for the values, each as the type at its position.
pub fn osc_arguments(types: &Vec<SupportedOscType>, values: Vec<String>) -> (res: Vec<OscArg>)
    requires
        arguments_sendable(types@, values@),
    ensures
        res@.len() == values@.len(),
        forall|i: int| 0 <= i < values@.len() ==> arg_for(types@[i], values@[i]@, #[trigger] res@[i]),
{
    let mut out: Vec<OscArg> = Vec::new();
    let mut i: usize = 0;
    while i < values.len()
        invariant
            arguments_sendable(types@, values@),
            i <= values@.len(),
            out@.len() == i,
            forall|k: int| 0 <= k < i ==> arg_for(types@[k], values@[k]@, #[trigger] out@[k]),
        decreases values@.len() - i,
    {
        let v = &values[i];
        let a = match types[i] {
            SupportedOscType::Int => match parse_i32(v.as_str()) {
                Some(n) => OscArg::Int(n),
                None => OscArg::Other,
            },
            SupportedOscType::Float => OscArg::Float(v.clone()),
            SupportedOscType::Boolean => match is_true_text(v) {
                Some(b) => OscArg::Bool(b),
                None => OscArg::Other,
            },
            SupportedOscType::String => OscArg::String(v.clone()),
        };
        assert(sendable(types@[i as int], values@[i as int]@));
        out.push(a);
        i = i + 1;
    }
    out
}

/// The kinds of VRChat service announced on the network.
#[derive(PartialEq, Eq, Clone, Copy, Debug, Structural)]
pub enum OscServiceKind {
    Osc,
    OscQuery,
}

/// An address that changed, for the user interface.
#[derive(Clone, Debug)]
pub enum AddressChange {
    Osc(String),
    OscQuery(String),
}

impl AddressChange {
    /// The name of the event that announces the change.
    pub fn event_name(&self) -> (res: String)
        ensures
            res@ == match self {
                AddressChange::Osc(_) => "VRC_OSC_ADDRESS_CHANGED"@,
                AddressChange::OscQuery(_) => "VRC_OSCQUERY_ADDRESS_CHANGED"@,
            },
    {
        match self {
            AddressChange::Osc(_) => "VRC_OSC_ADDRESS_CHANGED".to_owned(),
            AddressChange::OscQuery(_) => "VRC_OSCQUERY_ADDRESS_CHANGED".to_owned(),
        }
    }
}

/// The addresses of the VRChat OSC and OSCQuery services, once found.
pub struct VrchatAddresses {
    pub osc: Option<String>,
    pub oscquery: Option<String>,
}

impl VrchatAddresses {
    /// No address known.
    pub fn new() -> (res: VrchatAddresses)
        ensures
            res.osc is None,
            res.oscquery is None,
    {
        VrchatAddresses { osc: None, oscquery: None }
    }

    /// Records an announced service: an OSC service counts when its name
    /// starts with "VRChat-Client-", an OSCQuery service always.
    pub fn on_connect(&mut self, kind: OscServiceKind, name: &str, addr: String) -> (res: Option<
        AddressChange,
    >)
        ensures
            match kind {
                OscServiceKind::Osc => if seq_starts_with(name@, "VRChat-Client-"@) {
                    &&& final(self).osc matches Some(a) && a@ == addr@
                    &&& final(self).oscquery == old(self).oscquery
                    &&& res matches Some(AddressChange::Osc(a)) && a@ == addr@
                } else {
                    &&& final(self).osc == old(self).osc
                    &&& final(self).oscquery == old(self).oscquery
                    &&& res is None
                },
                OscServiceKind::OscQuery => {
                    &&& final(self).oscquery matches Some(a) && a@ == addr@
                    &&& final(self).osc == old(self).osc
                    &&& res matches Some(AddressChange::OscQuery(a)) && a@ == addr@
                },
            },
    {
        match kind {
            OscServiceKind::Osc => {
                if str_starts_with(name, "VRChat-Client-") {
                    self.osc = Some(addr.clone());
                    Some(AddressChange::Osc(addr))
                } else {
                    None
                }
            },
            OscServiceKind::OscQuery => {
                self.oscquery = Some(addr.clone());
                Some(AddressChange::OscQuery(addr))
            },
        }
    }

    /// The OSC address, once found.
    pub fn get_vrchat_osc_address(&self) -> (res: Option<String>)
        ensures
            res == self.osc,
    {
        match &self.osc {
            Some(a) => Some(a.clone()),
            None => None,
        }
    }

    /// The OSCQuery address, once found.
    pub fn get_vrchat_oscquery_address(&self) -> (res: Option<String>)
        ensures
            res == self.oscquery,
    {
        match &self.oscquery {
            Some(a) => Some(a.clone()),
            None => None,
        }
    }

    /// Both addresses, once both are found.
    pub fn start_osc_server(&self) -> (res: Option<(String, String)>)
        ensures
            res is Some <==> (self.osc is Some && self.oscquery is Some),
            res matches Some(p) ==> Some(p.0) == self.osc && Some(p.1) == self.oscquery,
    {
        let osc = self.get_vrchat_osc_address()?;
        let query = self.get_vrchat_oscquery_address()?;
        Some((osc, query))
    }
}

/// An address stays listed when more whitelists arrive.
pub proof fn law_whitelist_only_grows(entries: Seq<String>, more: Seq<String>, addr: Seq<char>)
    requires
        listed(entries, addr),
    ensures
        listed(entries + more, addr),
{
    let i = choose|i: int| 0 <= i < entries.len() && (#[trigger] entries[i])@ == addr;
    assert((entries + more)[i] == entries[i]);
}

/// Distinct argument types travel under distinct numbers.
pub proof fn law_type_codes_distinct(a: SupportedOscType, b: SupportedOscType)
    requires
        a.code_of() == b.code_of(),
    ensures
        a == b,
{
}

} // verus!
