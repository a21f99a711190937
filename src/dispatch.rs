use vstd::prelude::*;

use crate::sanitize::{fallback_id, push_char, slug, to_desktop_entry_id};

verus! {

/// A way of delivering a desktop notification.
#[derive(Debug, Clone, Copy, PartialEq, Eq, Structural)]
pub enum Backend {
    /// The desktop portal, reached over the session message bus.
    Portal,
    /// The platform's own notification service.
    Native,
}

/// The backends to try, in order: the portal first where the platform has
/// one, the native service always.
pub open spec fn backend_chain(portal_capable: bool) -> Seq<Backend> {
    if portal_capable {
        seq![Backend::Portal, Backend::Native]
    } else {
        seq![Backend::Native]
    }
}

/// The backend to try after the attempts that gave `results`, if any: none
/// once one has succeeded or all have been tried.
pub open spec fn next_backend(chain: Seq<Backend>, results: Seq<bool>) -> Option<Backend> {
    if results.contains(true) || results.len() >= chain.len() {
        None
    } else {
        Some(chain[results.len() as int])
    }
}

/// What the caller of a dispatch has to do next.
#[derive(Debug, Clone, Copy, PartialEq, Eq, Structural)]
pub enum DispatchStep {
    /// Try this backend and report the result.
    Deliver(Backend),
    /// A backend delivered the notification.
    Delivered(Backend),
    /// Every backend failed.
    Exhausted,
}

/// One notification request going down the chain of backends.
pub struct Dispatch {
    chain: Vec<Backend>,
    attempted: usize,
    delivered: bool,
    last_error: Option<String>,
    results: Ghost<Seq<bool>>,
}

impl Dispatch {
    pub closed spec fn chain(&self) -> Seq<Backend> {
        self.chain@
    }

    /// The result of each backend tried so far, in order.
    pub closed spec fn results(&self) -> Seq<bool> {
        self.results@
    }

    /// The error of the last backend tried, if it failed.
    pub closed spec fn last_error(&self) -> Option<Seq<char>> {
        match self.last_error {
            Some(e) => Some(e@),
            None => None,
        }
    }

    pub open spec fn is_done(&self) -> bool {
        next_backend(self.chain(), self.results()) is None
    }

    pub closed spec fn wf(&self) -> bool {
        let rs = self.results@;
        &&& self.attempted == rs.len()
        &&& rs.len() <= self.chain@.len() <= 2
        &&& self.chain@.len() > 0
        &&& forall|i: int| 0 <= i < rs.len() - 1 ==> !#[trigger] rs[i]
        &&& self.delivered == (rs.len() > 0 && rs.last())
        &&& (self.last_error is Some) == (rs.len() > 0 && !rs.last())
    }

    /// Starts a dispatch over the backends of the platform.
    pub fn new(portal_capable: bool) -> (r: Dispatch)
        ensures
            r.wf(),
            r.chain() == backend_chain(portal_capable),
            r.results() == Seq::<bool>::empty(),
            r.last_error() is None,
    {
        let chain = if portal_capable {
            vec![Backend::Portal, Backend::Native]
        } else {
            vec![Backend::Native]
        };
        assert(chain@ =~= backend_chain(portal_capable));
        Dispatch { chain, attempted: 0, delivered: false, last_error: None, results: Ghost(Seq::empty()) }
    }

    proof fn lemma_contains_last(&self)
        requires
            self.wf(),
        ensures
            self.results().contains(true) <==> self.delivered,
    {
        let rs = self.results@;
        if self.delivered {
            assert(rs[rs.len() - 1] == true);
        }
        if rs.contains(true) {
            let i = choose|i: int| 0 <= i < rs.len() && rs[i] == true;
            assert(i == rs.len() - 1);
        }
    }

    /// What to do next.
    pub fn next_step(&self) -> (r: DispatchStep)
        requires
            self.wf(),
        ensures
            next_backend(self.chain(), self.results()) matches Some(b) ==> r == DispatchStep::Deliver(b),
            self.results().contains(true) ==> r == DispatchStep::Delivered(
                self.chain()[self.results().len() - 1],
            ),
            self.is_done() && !self.results().contains(true) ==> r == DispatchStep::Exhausted,
    {
        proof {
            self.lemma_contains_last();
        }
        if self.delivered {
            DispatchStep::Delivered(self.chain[self.attempted - 1])
        } else if self.attempted < self.chain.len() {
            DispatchStep::Deliver(self.chain[self.attempted])
        } else {
            DispatchStep::Exhausted
        }
    }

    /// Reports the result of the backend that `next_step` asked for.
    pub fn record(&mut self, result: Result<(), String>)
        requires
            old(self).wf(),
            !old(self).is_done(),
        ensures
            final(self).wf(),
            final(self).chain() == old(self).chain(),
            final(self).results() == old(self).results().push(result is Ok),
            result matches Err(e) ==> final(self).last_error() == Some(e@),
            result is Ok ==> final(self).last_error() is None,
    {
        proof {
            self.lemma_contains_last();
        }
        let ghost rs = self.results@;
        match result {
            Ok(()) => {
                self.delivered = true;
                self.last_error = None;
                self.results = Ghost(rs.push(true));
            },
            Err(e) => {
                self.last_error = Some(e);
                self.results = Ghost(rs.push(false));
            },
        }
        self.attempted = self.attempted + 1;
        assert(self.results@.last() == (result is Ok));
    }

    /// The outcome of a finished dispatch: success exactly when some backend
    /// delivered, else the error of the last backend tried.
    pub fn finish(self) -> (r: Result<(), String>)
        requires
            self.wf(),
            self.is_done(),
        ensures
            r is Ok <==> self.results().contains(true),
            r matches Err(e) ==> self.last_error() == Some(e@),
    {
        proof {
            self.lemma_contains_last();
        }
        match self.last_error {
            Some(e) => Err(e),
            None => Ok(()),
        }
    }
}

/// On a platform with a portal: the portal is tried first; if it fails, the
/// native service is tried exactly once and then the dispatch is over; it
/// succeeds exactly when one of the backends tried succeeded.
pub proof fn lemma_portal_fallback(portal_ok: bool, native_ok: bool)
    ensures
        next_backend(backend_chain(true), seq![]) == Some(Backend::Portal),
        portal_ok ==> next_backend(backend_chain(true), seq![portal_ok]) is None,
        portal_ok ==> seq![portal_ok].contains(true),
        !portal_ok ==> next_backend(backend_chain(true), seq![portal_ok]) == Some(Backend::Native),
        !portal_ok ==> next_backend(backend_chain(true), seq![portal_ok, native_ok]) is None,
        !portal_ok ==> (seq![portal_ok, native_ok].contains(true) <==> native_ok),
{
    let s1 = seq![portal_ok];
    let s2 = seq![portal_ok, native_ok];
    if portal_ok {
        assert(s1[0] == true);
    }
    if native_ok {
        assert(s2[1] == true);
    }
    if !portal_ok {
        assert(!s1.contains(true)) by {
            if s1.contains(true) {
                let i = choose|i: int| 0 <= i < s1.len() && s1[i] == true;
                assert(i == 0);
            }
        }
    }
}

/// The identifier under which notifications are sent: the sanitized product
/// name, or the fallback identifier where none is configured.
pub fn notification_app_id(product_name: Option<&str>) -> (r: String)
    ensures
        product_name matches Some(n) ==> r@ == slug(n@),
        product_name is None ==> r@ == fallback_id(),
{
    match product_name {
        Some(n) => to_desktop_entry_id(n),
        None => {
            let r = String::from_str("aeon");
            proof {
                reveal_strlit("aeon");
                assert(r@ =~= fallback_id());
            }
            r
        },
    }
}

/// The desktop entry file name for an identifier.
pub fn desktop_entry(app_id: &str) -> (r: String)
    ensures
        r@ == app_id@ + ".desktop"@,
{
    let mut r = String::from_str(app_id);
    r.append(".desktop");
    r
}

/// Decimal digits of `n`, most significant first, with no leading zero.
pub open spec fn decimal(n: nat) -> Seq<char>
    decreases n,
{
    let d = ((n % 10) + ('0' as nat)) as char;
    if n < 10 {
        seq![d]
    } else {
        decimal(n / 10).push(d)
    }
}

/// Appends the decimal digits of `n` to `s`.
fn push_decimal(s: &mut String, n: u64)
    ensures
        final(s)@ == old(s)@ + decimal(n as nat),
    decreases n,
{
    if n >= 10 {
        push_decimal(s, n / 10);
    }
    let d: u8 = (n % 10) as u8;
    let c = (d + 48u8) as char;
    assert(c == (((n as nat) % 10) + ('0' as nat)) as char);
    push_char(s, c);
    assert(s@ =~= old(s)@ + decimal(n as nat));
}

/// Identifier of one portal notification: a fixed prefix and the time in
/// milliseconds, so that quick successive notifications do not collide.
pub fn portal_notification_id(millis: u64) -> (r: String)
    ensures
        r@ == "aeon-"@ + decimal(millis as nat),
{
    let mut r = String::from_str("aeon-");
    push_decimal(&mut r, millis);
    r
}

/// The key/value entries of a portal notification: title, body, normal
/// priority, and the application identifier as icon.
pub fn portal_payload(app_id: &str, title: &str, body: &str) -> (r: Vec<(String, String)>)
    ensures
        r@.len() == 4,
        r@[0].0@ == "title"@ && r@[0].1@ == title@,
        r@[1].0@ == "body"@ && r@[1].1@ == body@,
        r@[2].0@ == "priority"@ && r@[2].1@ == "normal"@,
        r@[3].0@ == "icon"@ && r@[3].1@ == app_id@,
{
    let mut r: Vec<(String, String)> = Vec::new();
    r.push((String::from_str("title"), String::from_str(title)));
    r.push((String::from_str("body"), String::from_str(body)));
    r.push((String::from_str("priority"), String::from_str("normal")));
    r.push((String::from_str("icon"), String::from_str(app_id)));
    r
}

} // verus!
