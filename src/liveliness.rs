//! Liveliness tokens: one per tracked resource, each with an existence flag and
//! an exclusive-access lock.
use vstd::prelude::*;

verus! {

/// The tracking state of one resource.
#[derive(Clone, Copy, Debug, PartialEq, Eq, Structural)]
pub struct Token {
    /// Address of the resource that this token tracks.
    pub resource: usize,
    /// The resource is still tracked; false once its root wrapper is destroyed.
    pub alive: bool,
    /// The resource is checked out through a handle.
    pub locked: bool,
}

/// Every liveliness token handed out so far, addressed by its index.
///
/// Tokens are never removed, so an index stays meaningful: once a token is
/// dead it stays dead.
pub struct TokenTable {
    tokens: Vec<Token>,
}

/// The state of a token just created for `resource`: alive and free.
pub open spec fn fresh_token(resource: usize) -> Token {
    Token { resource, alive: true, locked: false }
}

/// `token` names an alive token of `tokens`.
pub open spec fn is_alive(tokens: Seq<Token>, token: Option<usize>) -> bool {
    match token {
        Some(id) => id < tokens.len() && tokens[id as int].alive,
        None => false,
    }
}

/// `token` names an alive token of `tokens` that is checked out.
pub open spec fn is_locked(tokens: Seq<Token>, token: Option<usize>) -> bool {
    is_alive(tokens, token) && tokens[token.unwrap() as int].locked
}

/// Indices of the alive tokens that track `resource`.
pub open spec fn owners(tokens: Seq<Token>, resource: usize) -> Set<int> {
    Set::new(|i: int| 0 <= i < tokens.len() && tokens[i].alive && tokens[i].resource == resource)
}

/// `tokens` with the lock of token `id` set to `val`, where `id` is alive.
pub open spec fn with_lock(tokens: Seq<Token>, id: usize, val: bool) -> Seq<Token> {
    if is_alive(tokens, Some(id)) {
        tokens.update(id as int, Token { locked: val, ..tokens[id as int] })
    } else {
        tokens
    }
}

/// `tokens` with token `id` dead, where it exists.
pub open spec fn with_dead(tokens: Seq<Token>, id: usize) -> Seq<Token> {
    if id < tokens.len() {
        tokens.update(id as int, Token { alive: false, ..tokens[id as int] })
    } else {
        tokens
    }
}

impl View for TokenTable {
    type V = Seq<Token>;

    closed spec fn view(&self) -> Seq<Token> {
        self.tokens@
    }
}

impl TokenTable {
    /// A table that tracks nothing yet.
    pub fn new() -> (r: TokenTable)
        ensures
            r@ == Seq::<Token>::empty(),
    {
        TokenTable { tokens: Vec::new() }
    }

    /// The number of tokens handed out so far.
    pub fn len(&self) -> (r: usize)
        ensures
            r == self@.len(),
    {
        self.tokens.len()
    }

    /// Whether some alive token tracks `resource`.
    pub fn tracks(&self, resource: usize) -> (r: bool)
        ensures
            r == !owners(self@, resource).is_empty(),
    {
        let mut i: usize = 0;
        while i < self.tokens.len()
            invariant
                i <= self@.len(),
                forall|j: int| 0 <= j < i ==> !owners(self@, resource).contains(j),
            decreases self@.len() - i,
        {
            let t = self.tokens[i];
            if t.alive && t.resource == resource {
                assert(owners(self@, resource).contains(i as int));
                return true;
            }
            i = i + 1;
        }
        assert(owners(self@, resource) =~= Set::<int>::empty());
        false
    }

    /// Whether `token` names an alive token.
    pub fn alive(&self, token: Option<usize>) -> (r: bool)
        ensures
            r == is_alive(self@, token),
    {
        match token {
            Some(id) => id < self.tokens.len() && self.tokens[id].alive,
            None => false,
        }
    }

    /// Whether `token` names an alive token that is checked out.
    pub fn locked(&self, token: Option<usize>) -> (r: bool)
        ensures
            r == is_locked(self@, token),
    {
        match token {
            Some(id) => id < self.tokens.len() && self.tokens[id].alive && self.tokens[id].locked,
            None => false,
        }
    }

    /// Creates an alive, free token for `resource` and returns its index.
    pub(crate) fn claim(&mut self, resource: usize) -> (id: usize)
        requires
            old(self)@.len() < usize::MAX,
        ensures
            id == old(self)@.len(),
            final(self)@ == old(self)@.push(fresh_token(resource)),
    {
        let id = self.tokens.len();
        self.tokens.push(Token { resource, alive: true, locked: false });
        id
    }

    /// Sets the lock of token `id` to `val`, if that token is alive.
    pub(crate) fn set_locked(&mut self, id: usize, val: bool)
        ensures
            final(self)@ == with_lock(old(self)@, id, val),
    {
        if id < self.tokens.len() && self.tokens[id].alive {
            let t = self.tokens[id];
            self.tokens.set(id, Token { locked: val, ..t });
        }
    }

    /// Marks token `id` dead, if it exists.
    pub(crate) fn kill(&mut self, id: usize)
        ensures
            final(self)@ == with_dead(old(self)@, id),
    {
        if id < self.tokens.len() {
            let t = self.tokens[id];
            self.tokens.set(id, Token { alive: false, ..t });
        }
    }
}

/// Claiming a resource that no alive token tracks leaves exactly one owner of
/// it: the new token.
pub proof fn lemma_single_owner(tokens: Seq<Token>, resource: usize)
    requires
        owners(tokens, resource).is_empty(),
    ensures
        owners(tokens.push(fresh_token(resource)), resource) == set![tokens.len() as int],
{
    let after = tokens.push(fresh_token(resource));
    assert forall|i: int| owners(after, resource).contains(i) implies i == tokens.len() by {
        if i < tokens.len() {
            assert(after[i] == tokens[i]);
            assert(owners(tokens, resource).contains(i));
        }
    }
    assert(owners(after, resource) =~= set![tokens.len() as int]);
}

/// A dead token stays dead: neither locking nor killing any token, nor claiming
/// a new one, brings it back.
pub proof fn lemma_dead_stays_dead(tokens: Seq<Token>, id: usize, other: usize, val: bool, resource: usize)
    requires
        id < tokens.len(),
        !is_alive(tokens, Some(id)),
    ensures
        !is_alive(with_lock(tokens, other, val), Some(id)),
        !is_alive(with_dead(tokens, other), Some(id)),
        !is_alive(tokens.push(fresh_token(resource)), Some(id)),
{
}

} // verus!
