//! Port and channel identifiers, parsed and rendered by the `ibc` crate.
use core::str::FromStr;
use vstd::prelude::*;

verus! {

/// Whether `ibc` accepts the text as a port identifier.
pub uninterp spec fn port_id_accepts(s: Seq<char>) -> bool;

/// The canonical text of the channel identifier that `ibc` parses from the
/// text, if it parses one.
pub uninterp spec fn channel_id_of(s: Seq<char>) -> Option<Seq<char>>;

/// Relies on `ibc::core::ics24_host::identifier::PortId::from_str`: it
/// validates the text and, on success, keeps it unchanged; the characters it
/// allows are alphanumerics and `._+-#[]<>`, so never `*`.
#[verifier::external_body]
fn ibc_parse_port_id(s: &str) -> (r: Option<String>)
    ensures
        r is Some <==> port_id_accepts(s@),
        r matches Some(t) ==> t@ == s@,
        r matches Some(t) ==> !t@.contains('*'),
{
    ibc::core::ics24_host::identifier::PortId::from_str(s).ok().map(|p| p.as_str().to_string())
}

/// Relies on `ibc::core::ics24_host::identifier::ChannelId::from_str` and its
/// `Display`: the text of the parsed channel identifier, if there is one,
/// which is `channel-` followed by the decimal counter, so never holds `*`.
#[verifier::external_body]
fn ibc_parse_channel_id(s: &str) -> (r: Option<String>)
    ensures
        r is Some <==> channel_id_of(s@) is Some,
        r matches Some(t) ==> channel_id_of(s@) == Some(t@),
        r matches Some(t) ==> !t@.contains('*'),
{
    ibc::core::ics24_host::identifier::ChannelId::from_str(s).ok().map(|c| c.to_string())
}

/// An identifier with a parser that may reject its input and a canonical
/// text form, used for display, wildcard matching and rendering.
pub trait Identifier: Sized {
    /// The canonical text of the identifier.
    spec fn text(&self) -> Seq<char>;

    /// Whether the parser accepts `s`.
    spec fn accepts(s: Seq<char>) -> bool;

    /// The canonical text of what the parser makes of `s`.
    spec fn canonical(s: Seq<char>) -> Seq<char>;

    /// The canonical text.
    fn as_str(&self) -> (r: &str)
        ensures
            r@ == self.text(),
    ;

    /// Whether the two identifiers are equal.
    fn same_as(&self, other: &Self) -> (r: bool)
        ensures
            r == (self.text() == other.text()),
    ;

    /// Parses an identifier; `None` where the parser rejects the text.
    fn parse_id(s: &str) -> (r: Option<Self>)
        ensures
            r is Some <==> Self::accepts(s@),
            r matches Some(v) ==> v.text() == Self::canonical(s@),
    ;
}

/// A port identifier.
#[derive(Debug)]
pub struct PortId {
    id: String,
}

/// A channel identifier, kept in its canonical text form.
#[derive(Debug)]
pub struct ChannelId {
    id: String,
}

impl PortId {
    /// Parses a port identifier; the text is kept as given.
    pub fn from_str(s: &str) -> (r: Option<PortId>)
        ensures
            r is Some <==> port_id_accepts(s@),
            r matches Some(p) ==> p.text() == s@,
            r matches Some(p) ==> !p.text().contains('*'),
    {
        match ibc_parse_port_id(s) {
            Some(id) => Some(PortId { id }),
            None => None,
        }
    }
}

impl ChannelId {
    /// Parses a channel identifier into its canonical form.
    pub fn from_str(s: &str) -> (r: Option<ChannelId>)
        ensures
            r is Some <==> channel_id_of(s@) is Some,
            r matches Some(c) ==> channel_id_of(s@) == Some(c.text()),
            r matches Some(c) ==> !c.text().contains('*'),
    {
        match ibc_parse_channel_id(s) {
            Some(id) => Some(ChannelId { id }),
            None => None,
        }
    }
}

impl Identifier for PortId {
    closed spec fn text(&self) -> Seq<char> {
        self.id@
    }

    open spec fn accepts(s: Seq<char>) -> bool {
        port_id_accepts(s)
    }

    open spec fn canonical(s: Seq<char>) -> Seq<char> {
        s
    }

    fn as_str(&self) -> (r: &str) {
        self.id.as_str()
    }

    fn same_as(&self, other: &Self) -> (r: bool) {
        self.id == other.id
    }

    fn parse_id(s: &str) -> (r: Option<Self>) {
        PortId::from_str(s)
    }
}

impl Identifier for ChannelId {
    closed spec fn text(&self) -> Seq<char> {
        self.id@
    }

    open spec fn accepts(s: Seq<char>) -> bool {
        channel_id_of(s) is Some
    }

    open spec fn canonical(s: Seq<char>) -> Seq<char> {
        channel_id_of(s).unwrap()
    }

    fn as_str(&self) -> (r: &str) {
        self.id.as_str()
    }

    fn same_as(&self, other: &Self) -> (r: bool) {
        self.id == other.id
    }

    fn parse_id(s: &str) -> (r: Option<Self>) {
        ChannelId::from_str(s)
    }
}

impl Clone for PortId {
    fn clone(&self) -> (r: Self)
        ensures
            r == *self,
    {
        PortId { id: self.id.clone() }
    }
}

impl PartialEq for PortId {
    fn eq(&self, o: &PortId) -> (r: bool) {
        self.id == o.id
    }
}

impl vstd::std_specs::cmp::PartialEqSpecImpl for PortId {
    open spec fn obeys_eq_spec() -> bool {
        true
    }

    open spec fn eq_spec(&self, o: &PortId) -> bool {
        self.text() == o.text()
    }
}

impl Clone for ChannelId {
    fn clone(&self) -> (r: Self)
        ensures
            r == *self,
    {
        ChannelId { id: self.id.clone() }
    }
}

impl PartialEq for ChannelId {
    fn eq(&self, o: &ChannelId) -> (r: bool) {
        self.id == o.id
    }
}

impl vstd::std_specs::cmp::PartialEqSpecImpl for ChannelId {
    open spec fn obeys_eq_spec() -> bool {
        true
    }

    open spec fn eq_spec(&self, o: &ChannelId) -> bool {
        self.text() == o.text()
    }
}

} // verus!
