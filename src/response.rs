use vstd::prelude::*;

verus! {

/// A key and value that the host records with the call's result.
#[derive(Clone, Debug, PartialEq)]
pub struct Attribute {
    pub key: String,
    pub value: String,
}

impl View for Attribute {
    type V = (Seq<char>, Seq<char>);

    open spec fn view(&self) -> (Seq<char>, Seq<char>) {
        (self.key@, self.value@)
    }
}

/// A call to another contract, sent without funds.
#[derive(Clone, Debug, PartialEq)]
pub enum WasmMsg {
    /// Create a contract from stored code `code_id`, with JSON `msg`.
    Instantiate { code_id: u64, msg: Vec<u8>, label: String },
    /// Run JSON `msg` on the contract at `contract_addr`.
    Execute { contract_addr: String, msg: Vec<u8> },
}

impl WasmMsg {
    pub open spec fn is_instantiate(&self, code_id: u64, msg: Seq<u8>, label: Seq<char>) -> bool {
        &&& self matches WasmMsg::Instantiate { code_id: c, msg: m, label: l }
        &&& c == code_id
        &&& m@ == msg
        &&& l@ == label
    }

    pub open spec fn is_execute(&self, contract_addr: Seq<char>, msg: Seq<u8>) -> bool {
        &&& self matches WasmMsg::Execute { contract_addr: a, msg: m }
        &&& a@ == contract_addr
        &&& m@ == msg
    }
}

/// A message whose success the host reports back under `id`.
#[derive(Clone, Debug, PartialEq)]
pub struct SubMsg {
    pub id: u64,
    pub msg: WasmMsg,
}

/// What a call hands back to the host: attributes, then messages to send.
#[derive(Clone, Debug, PartialEq)]
pub struct Response {
    pub attributes: Vec<Attribute>,
    pub messages: Vec<SubMsg>,
}

impl Response {
    /// The attributes as pairs of key and value.
    pub open spec fn attrs(&self) -> Seq<(Seq<char>, Seq<char>)> {
        self.attributes@.map_values(|a: Attribute| a@)
    }

    /// The response that carries nothing.
    pub fn new() -> (r: Response)
        ensures
            r.attrs() == Seq::<(Seq<char>, Seq<char>)>::empty(),
            r.messages@ == Seq::<SubMsg>::empty(),
    {
        let r = Response { attributes: Vec::new(), messages: Vec::new() };
        assert(r.attrs() =~= Seq::<(Seq<char>, Seq<char>)>::empty());
        r
    }

    /// Appends the attribute `key` = `value`.
    pub fn add_attribute(self, key: &str, value: &str) -> (r: Response)
        ensures
            r.attrs() == self.attrs().push((key@, value@)),
            r.messages@ == self.messages@,
    {
        let mut attributes = self.attributes;
        let messages = self.messages;
        let a = Attribute { key: key.to_owned(), value: value.to_owned() };
        attributes.push(a);
        let r = Response { attributes, messages };
        assert(r.attrs() =~= self.attrs().push((key@, value@)));
        r
    }

    /// Appends the message `m`.
    pub fn add_submessage(self, m: SubMsg) -> (r: Response)
        ensures
            r.attrs() == self.attrs(),
            r.messages@ == self.messages@.push(m),
    {
        let attributes = self.attributes;
        let mut messages = self.messages;
        messages.push(m);
        Response { attributes, messages }
    }
}

} // verus!
