use vstd::prelude::*;

use crate::context::{Operation, UserData};
use crate::table::ContextTable;

verus! {

/// A failed operation: which kind of operation it was and the OS error
/// number the kernel reported for it.
#[derive(Debug, Clone, Copy, PartialEq, Eq, Structural)]
pub struct OperationError {
    op: Operation,
    errno: u32,
}

/// Declares `std::io::Error`, the carrier of an OS error number; only its
/// `Display` text is read here.
#[verifier::external_type_specification]
#[verifier::external_body]
pub struct ExIoError(std::io::Error);

/// Relies on `std::io::Error::from_raw_os_error`: an error value for the OS
/// error number `code`, which displays as the platform's description of it.
pub assume_specification[ std::io::Error::from_raw_os_error ](code: i32) -> std::io::Error;

impl OperationError {
    pub closed spec fn spec_op(&self) -> Operation {
        self.op
    }

    pub closed spec fn spec_errno(&self) -> nat {
        self.errno as nat
    }

    fn op_err(op: Operation, err_code: u32) -> (r: Self)
        ensures
            r.spec_op() == op,
            r.spec_errno() == err_code,
    {
        OperationError { op, errno: err_code }
    }

    /// The kind of operation that failed.
    pub fn op(&self) -> (r: Operation)
        ensures
            r == self.spec_op(),
    {
        self.op
    }

    /// The OS error number reported for it.
    pub fn errno(&self) -> (r: u32)
        ensures
            r == self.spec_errno(),
    {
        self.errno
    }

    /// What a failure's message opens with: the operation's name.
    pub open spec fn message_head(op: Operation) -> Seq<char> {
        "Error when performing IO operation "@ + op.spec_name() + ": "@
    }

    /// A readable account of the failure: the operation's name followed by
    /// the platform's description of the error number.
    pub fn to_string(&self) -> (r: String)
        ensures
            r@.len() >= Self::message_head(self.spec_op()).len(),
            r@.subrange(0, Self::message_head(self.spec_op()).len() as int) == Self::message_head(
                self.spec_op(),
            ),
            self.spec_errno() > i32::MAX ==> r@ == Self::message_head(self.spec_op())
                + "unknown error"@,
    {
        let mut s = String::from_str("Error when performing IO operation ");
        proof {
            reveal_strlit("Error when performing IO operation ");
            reveal_strlit(": ");
            reveal_strlit("unknown error");
        }
        s.append(self.op.name());
        s.append(": ");
        let ghost head = s@;
        assert(head =~= Self::message_head(self.spec_op()));
        if self.errno <= i32::MAX as u32 {
            let text = std::io::Error::from_raw_os_error(self.errno as i32).to_string();
            s.append(text.as_str());
        } else {
            s.append("unknown error");
        }
        assert(s@.subrange(0, head.len() as int) =~= head);
        s
    }
}

/// The meaning of a raw result code, decided by its sign alone: a negative
/// code is a failure whose OS error number is the code's magnitude, any other
/// code (zero included) is a success whose value is the code itself.
pub fn interpret_result(res: i32) -> (r: Result<u32, u32>)
    ensures
        res < 0 ==> r == Err::<u32, u32>((-res) as u32),
        res >= 0 ==> r == Ok::<u32, u32>(res as u32),
{
    if res < 0 {
        Err((-(res as i64)) as u32)
    } else {
        Ok(res as u32)
    }
}

/// One completion as read off the completion queue: the tag that was
/// attached to the submission (0 for none) and the signed result code.
#[derive(Debug, Clone, Copy, PartialEq, Eq, Structural)]
pub struct Cqe {
    user_data: u64,
    res: i32,
}

impl Cqe {
    pub closed spec fn spec_user_data(&self) -> u64 {
        self.user_data
    }

    pub closed spec fn spec_result(&self) -> i32 {
        self.res
    }

    /// A completion built from the raw fields of a completion-queue entry.
    pub fn from_raw(user_data: u64, res: i32) -> (r: Self)
        ensures
            r.spec_user_data() == user_data,
            r.spec_result() == res,
    {
        Cqe { user_data, res }
    }

    /// The tag that came back with this completion.
    pub fn user_data(&self) -> (r: u64)
        ensures
            r == self.spec_user_data(),
    {
        self.user_data
    }

    /// The raw result code: negative for a failure (the negated OS error
    /// number), otherwise the operation's return value.
    pub fn get_result(&self) -> (r: i32)
        ensures
            r == self.spec_result(),
    {
        self.res
    }

    /// Redeems the tag that came back with this completion and interprets the
    /// result code.
    ///
    /// With no tag attached this yields `Ok(None)` and touches nothing. Else the
    /// context leaves `table` (a second redemption of the same tag is ruled out
    /// by the precondition), and a negative code yields an error that names the
    /// context's operation and carries the negated code as error number, while
    /// a code of zero or more hands the context back.
    pub fn get_data<T>(&self, table: &mut ContextTable<T>) -> (r: Result<
        Option<UserData<T>>,
        OperationError,
    >)
        requires
            self.spec_user_data() == 0 || old(table).contexts().contains_key(
                self.spec_user_data(),
            ),
        ensures
            self.spec_user_data() == 0 ==> r == Ok::<Option<UserData<T>>, OperationError>(None)
                && final(table).contexts() == old(table).contexts(),
            self.spec_user_data() != 0 ==> final(table).contexts() == old(
                table,
            ).contexts().remove(self.spec_user_data()),
            self.spec_user_data() != 0 && self.spec_result() < 0 ==> r is Err && r->Err_0.spec_op()
                == old(table).contexts()[self.spec_user_data()].spec_op() && r->Err_0.spec_errno()
                == -self.spec_result(),
            self.spec_user_data() != 0 && self.spec_result() >= 0 ==> r == Ok::<
                Option<UserData<T>>,
                OperationError,
            >(Some(old(table).contexts()[self.spec_user_data()])),
            final(table).slot_count() == old(table).slot_count(),
    {
        if self.user_data == 0 {
            return Ok(None);
        }
        let recovered = table.recover(self.user_data);
        match recovered {
            Some(ud) => match interpret_result(self.res) {
                Err(code) => Err(OperationError::op_err(ud.op(), code)),
                Ok(_) => Ok(Some(ud)),
            },
            None => Ok(None),
        }
    }
}

} // verus!
