use vstd::prelude::*;

verus! {

/// Who is connecting, before authentication.
#[derive(Debug)]
pub struct ComputeUserInfo {
    /// The endpoint, which shards pools and rate limits.
    pub endpoint: String,
    pub user: String,
    /// Client-supplied options, carried as given.
    pub options: String,
}

/// The key that pooled connections are looked up by.
#[derive(Debug)]
pub struct ConnInfo {
    pub user_info: ComputeUserInfo,
    pub dbname: String,
}

/// The mathematical content of a pool key.
pub struct ConnKey {
    pub endpoint: Seq<char>,
    pub user: Seq<char>,
    pub options: Seq<char>,
    pub dbname: Seq<char>,
}

impl View for ConnInfo {
    type V = ConnKey;

    open spec fn view(&self) -> ConnKey {
        ConnKey {
            endpoint: self.user_info.endpoint@,
            user: self.user_info.user@,
            options: self.user_info.options@,
            dbname: self.dbname@,
        }
    }
}

impl ComputeUserInfo {
    pub fn duplicate(&self) -> (r: ComputeUserInfo)
        ensures
            r == *self,
    {
        ComputeUserInfo {
            endpoint: self.endpoint.clone(),
            user: self.user.clone(),
            options: self.options.clone(),
        }
    }
}

impl ConnInfo {
    pub fn duplicate(&self) -> (r: ConnInfo)
        ensures
            r == *self,
    {
        ConnInfo { user_info: self.user_info.duplicate(), dbname: self.dbname.clone() }
    }

    /// Whether two keys name the same pool slot.
    pub fn same_key(&self, other: &ConnInfo) -> (r: bool)
        ensures
            r == (self@ == other@),
    {
        self.user_info.endpoint == other.user_info.endpoint && self.user_info.user
            == other.user_info.user && self.user_info.options == other.user_info.options
            && self.dbname == other.dbname
    }
}

/// An idle backend connection whose driver task is still running.
#[derive(Debug)]
pub struct IdleConn<C> {
    pub key: ConnInfo,
    pub conn_id: u128,
    pub conn: C,
}

/// Idle backend connections, available for reuse.
pub struct ConnPool<C> {
    idle: Vec<IdleConn<C>>,
}

/// The idle entries left once the driver of `conn_id` has ended.
pub open spec fn without_conn<C>(s: Seq<IdleConn<C>>, conn_id: u128) -> Seq<IdleConn<C>> {
    s.filter(|e: IdleConn<C>| e.conn_id != conn_id)
}

/// Some idle entry of `s` is stored under `key`.
pub open spec fn has_key<C>(s: Seq<IdleConn<C>>, key: ConnKey) -> bool {
    exists|i: int| 0 <= i < s.len() && (#[trigger] s[i]).key@ == key
}

impl<C> ConnPool<C> {
    pub closed spec fn view(&self) -> Seq<IdleConn<C>> {
        self.idle@
    }

    pub fn new() -> (r: ConnPool<C>)
        ensures
            r.view() == Seq::<IdleConn<C>>::empty(),
    {
        ConnPool { idle: Vec::new() }
    }

    /// Checks out an idle connection stored under `key`, if there is one.
    pub fn get(&mut self, key: &ConnInfo) -> (r: Option<IdleConn<C>>)
        ensures
            r is None <==> !has_key(old(self).view(), key@),
            r is None ==> final(self).view() == old(self).view(),
            r matches Some(e) ==> e.key@ == key@ && exists|i: int|
                0 <= i < old(self).view().len() && old(self).view()[i] == e
                    && final(self).view() == old(self).view().remove(i),
    {
        let mut i: usize = 0;
        while i < self.idle.len()
            invariant
                i <= self.idle@.len(),
                self.idle@ == old(self).idle@,
                forall|j: int| 0 <= j < i ==> (#[trigger] self.idle@[j]).key@ != key@,
            decreases self.idle@.len() - i,
        {
            if self.idle[i].key.same_key(key) {
                let e = self.idle.remove(i);
                return Some(e);
            }
            i = i + 1;
        }
        None
    }

    /// Returns a connection to the idle set.
    pub fn put(&mut self, e: IdleConn<C>)
        ensures
            final(self).view() == old(self).view().push(e),
    {
        self.idle.push(e);
    }

    /// The driver of `conn_id` observed a terminal error: its entry leaves the pool.
    pub fn driver_terminated(&mut self, conn_id: u128)
        ensures
            final(self).view() == without_conn(old(self).view(), conn_id),
    {
        let mut kept: Vec<IdleConn<C>> = Vec::new();
        let ghost all = self.idle@;
        while self.idle.len() > 0
            invariant
                without_conn(all, conn_id) == without_conn(kept@, conn_id) + without_conn(
                    self.idle@,
                    conn_id,
                ),
                without_conn(kept@, conn_id) == kept@,
            decreases self.idle@.len(),
        {
            let ghost rest = self.idle@;
            let ghost k0 = kept@;
            let e = self.idle.remove(0);
            assert(rest =~= seq![e] + self.idle@);
            proof {
                lemma_filter_concat(seq![e], self.idle@, conn_id);
                lemma_filter_concat(k0, seq![e], conn_id);
                lemma_filter_single(e, conn_id);
            }
            if e.conn_id != conn_id {
                kept.push(e);
                assert(kept@ =~= k0 + seq![e]);
            } else {
                assert(k0 + Seq::<IdleConn<C>>::empty() =~= k0);
            }
            assert(without_conn(all, conn_id) =~= without_conn(kept@, conn_id) + without_conn(
                self.idle@,
                conn_id,
            ));
        }
        assert(without_conn(self.idle@, conn_id) =~= Seq::<IdleConn<C>>::empty());
        assert(without_conn(kept@, conn_id) + Seq::<IdleConn<C>>::empty() =~= kept@);
        self.idle = kept;
    }
}

proof fn lemma_filter_concat<C>(a: Seq<IdleConn<C>>, b: Seq<IdleConn<C>>, conn_id: u128)
    ensures
        without_conn(a + b, conn_id) == without_conn(a, conn_id) + without_conn(b, conn_id),
{
    Seq::filter_distributes_over_add(a, b, |e: IdleConn<C>| e.conn_id != conn_id);
}

proof fn lemma_filter_single<C>(e: IdleConn<C>, conn_id: u128)
    ensures
        without_conn(seq![e], conn_id) == if e.conn_id != conn_id {
            seq![e]
        } else {
            Seq::<IdleConn<C>>::empty()
        },
{
    reveal_with_fuel(Seq::filter, 2);
    assert(seq![e].drop_last() =~= Seq::<IdleConn<C>>::empty());
    if e.conn_id != conn_id {
        assert(Seq::<IdleConn<C>>::empty().push(e) =~= seq![e]);
    }
}

/// Once the driver of `conn_id` has ended, no idle entry carries `conn_id`, so no later
/// check-out can hand that connection out.
pub proof fn lemma_terminated_driver_never_returned<C>(s: Seq<IdleConn<C>>, conn_id: u128)
    ensures
        forall|i: int|
            0 <= i < without_conn(s, conn_id).len() ==> (#[trigger] without_conn(
                s,
                conn_id,
            )[i]).conn_id != conn_id,
{
    assert forall|i: int| 0 <= i < without_conn(s, conn_id).len() implies (#[trigger] without_conn(
        s,
        conn_id,
    )[i]).conn_id != conn_id by {
        Seq::lemma_filter_pred(s, |e: IdleConn<C>| e.conn_id != conn_id, i);
    }
}

/// Where a connection for a request comes from.
pub enum PoolLookup<C> {
    /// A pooled connection was reused; no connect attempt is made.
    Reused(IdleConn<C>),
    /// A new connection must be opened; it will be known by this id.
    Connect(u128),
}

/// Relies on `uuid::Uuid::new_v4` and `Uuid::as_u128`: a random version-4 UUID as
/// its 128-bit value. Nothing is known of the value.
#[verifier::external_body]
fn new_conn_id() -> (r: u128) {
    uuid::Uuid::new_v4().as_u128()
}

/// Reuses a pooled connection for `key` unless the pool is bypassed.
pub fn pooled_or_connect<C>(pool: &mut ConnPool<C>, key: &ConnInfo, force_new: bool) -> (r:
    PoolLookup<C>)
    ensures
        force_new ==> r is Connect && final(pool).view() == old(pool).view(),
        !force_new ==> (r is Connect <==> !has_key(old(pool).view(), key@)),
        r is Connect ==> final(pool).view() == old(pool).view(),
        r matches PoolLookup::Reused(e) ==> e.key@ == key@ && exists|i: int|
            0 <= i < old(pool).view().len() && old(pool).view()[i] == e && final(pool).view()
                == old(pool).view().remove(i),
{
    if force_new {
        return PoolLookup::Connect(new_conn_id());
    }
    match pool.get(key) {
        Some(e) => PoolLookup::Reused(e),
        None => PoolLookup::Connect(new_conn_id()),
    }
}

} // verus!
