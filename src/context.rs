use vstd::prelude::*;

verus! {

/// The kind of I/O operation a request stands for.
#[derive(Debug, Clone, Copy, PartialEq, Eq, Structural)]
pub enum Operation {
    Read,
    Write,
    Readv,
    Writev,
    Fsync,
    Close,
    Openat,
    Send,
    Recv,
    Accept,
}

impl Operation {
    /// The operation's name, as used in diagnostics.
    pub fn name(&self) -> (r: &'static str)
        ensures
            r@ == self.spec_name(),
    {
        match self {
            Operation::Read => "Read",
            Operation::Write => "Write",
            Operation::Readv => "Readv",
            Operation::Writev => "Writev",
            Operation::Fsync => "Fsync",
            Operation::Close => "Close",
            Operation::Openat => "Openat",
            Operation::Send => "Send",
            Operation::Recv => "Recv",
            Operation::Accept => "Accept",
        }
    }

    pub open spec fn spec_name(&self) -> Seq<char> {
        match self {
            Operation::Read => "Read"@,
            Operation::Write => "Write"@,
            Operation::Readv => "Readv"@,
            Operation::Writev => "Writev"@,
            Operation::Fsync => "Fsync"@,
            Operation::Close => "Close"@,
            Operation::Openat => "Openat"@,
            Operation::Send => "Send"@,
            Operation::Recv => "Recv"@,
            Operation::Accept => "Accept"@,
        }
    }
}

/// A caller-chosen 128-bit correlation value (wide enough for a UUID).
#[derive(Debug, Clone, Copy, PartialEq, Eq, Structural)]
pub struct Identifier(pub u128);

/// The context of one request: what it does, who asked for it, which
/// descriptor it targets, and an optional payload kept alive alongside it.
#[derive(Debug)]
pub struct UserData<T> {
    pub(crate) op: Operation,
    pub(crate) id: Identifier,
    pub(crate) srcfd: i32,
    pub(crate) data: Option<Box<T>>,
}

impl<T> UserData<T> {
    pub closed spec fn spec_op(&self) -> Operation {
        self.op
    }

    pub closed spec fn spec_id(&self) -> Identifier {
        self.id
    }

    pub closed spec fn spec_srcfd(&self) -> i32 {
        self.srcfd
    }

    /// The payload, if any.
    pub closed spec fn spec_data(&self) -> Option<T> {
        match self.data {
            Some(b) => Some(*b),
            None => None,
        }
    }

    /// A context without payload.
    pub fn new(op: Operation, id: Identifier, srcfd: i32) -> (r: Self)
        ensures
            r.spec_op() == op,
            r.spec_id() == id,
            r.spec_srcfd() == srcfd,
            r.spec_data() is None,
    {
        UserData { op, id, srcfd, data: None }
    }

    /// A context that carries `data` for the duration of the operation.
    pub fn with_data(op: Operation, id: Identifier, srcfd: i32, data: T) -> (r: Self)
        ensures
            r.spec_op() == op,
            r.spec_id() == id,
            r.spec_srcfd() == srcfd,
            r.spec_data() == Some(data),
    {
        UserData { op, id, srcfd, data: Some(Box::new(data)) }
    }

    /// Replaces the payload; the other fields are kept.
    pub fn set_data(&mut self, data: T)
        ensures
            final(self).spec_op() == old(self).spec_op(),
            final(self).spec_id() == old(self).spec_id(),
            final(self).spec_srcfd() == old(self).spec_srcfd(),
            final(self).spec_data() == Some(data),
    {
        self.data = Some(Box::new(data));
    }

    pub fn op(&self) -> (r: Operation)
        ensures
            r == self.spec_op(),
    {
        self.op
    }

    pub fn id(&self) -> (r: Identifier)
        ensures
            r == self.spec_id(),
    {
        self.id
    }

    pub fn srcfd(&self) -> (r: i32)
        ensures
            r == self.spec_srcfd(),
    {
        self.srcfd
    }

    pub fn data(&self) -> (r: Option<&T>)
        ensures
            match self.spec_data() {
                Some(d) => r == Some(&d),
                None => r is None,
            },
    {
        match &self.data {
            Some(b) => Some(&**b),
            None => None,
        }
    }
}

} // verus!
