//! The acting context that every data access carries.

use vstd::prelude::*;

verus! {

/// Who acts. Opaque to the controllers, which pass it on.
#[derive(Clone, Copy, Debug, PartialEq)]
pub struct Ctx {
    user_id: i64,
}

impl Ctx {
    /// The key of the acting user; 0 for the root context.
    pub closed spec fn actor(&self) -> i64 {
        self.user_id
    }

    pub open spec fn is_root(&self) -> bool {
        self.actor() == 0
    }

    /// The privileged context of the system's own calls.
    pub fn root_ctx() -> (ctx: Ctx)
        ensures
            ctx.is_root(),
    {
        Ctx { user_id: 0 }
    }

    /// The context of a user's request. The root context cannot be made this
    /// way: key 0 gives `None`.
    pub fn new(user_id: i64) -> (ctx: Option<Ctx>)
        ensures
            user_id == 0 ==> ctx is None,
            user_id != 0 ==> (ctx matches Some(c) && c.actor() == user_id),
    {
        if user_id == 0 {
            None
        } else {
            Some(Ctx { user_id })
        }
    }

    pub fn user_id(&self) -> (id: i64)
        ensures
            id == self.actor(),
    {
        self.user_id
    }
}

} // verus!
