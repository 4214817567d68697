use vstd::prelude::*;
use crate::types::{Cluster, User, Context, Config, TempConfig};
use crate::search::{first_at, has_match, first_index, lemma_first_index, lemma_first_at_unique,
    lemma_no_match};

verus! {

/// The predicate picking clusters that carry name `name`.
pub open spec fn cluster_named(name: Seq<char>) -> spec_fn(Cluster) -> bool {
    |c: Cluster| c.name@ == name
}

/// The predicate picking users that carry name `name`.
pub open spec fn user_named(name: Seq<char>) -> spec_fn(User) -> bool {
    |u: User| u.name@ == name
}

/// The predicate picking contexts that carry name `name`.
pub open spec fn context_named(name: Seq<char>) -> spec_fn(Context) -> bool {
    |c: Context| c.name@ == name
}

/// The predicate picking contexts whose cluster reference is `cname`.
pub open spec fn context_refers_to(cname: Seq<char>) -> spec_fn(Context) -> bool {
    |c: Context| c.context.cluster@ == cname
}

/// Insert-or-replace keyed by cluster name: a present name keeps its
/// position and takes the new entry; an absent name is appended.
pub open spec fn upsert_cluster_spec(s: Seq<Cluster>, c: Cluster) -> Seq<Cluster> {
    if has_match(s, cluster_named(c.name@)) {
        s.update(first_index(s, cluster_named(c.name@)), c)
    } else {
        s.push(c)
    }
}

/// Insert-or-replace keyed by user name.
pub open spec fn upsert_user_spec(s: Seq<User>, u: User) -> Seq<User> {
    if has_match(s, user_named(u.name@)) {
        s.update(first_index(s, user_named(u.name@)), u)
    } else {
        s.push(u)
    }
}

/// Insert-or-replace keyed by context name.
pub open spec fn upsert_context_spec(s: Seq<Context>, c: Context) -> Seq<Context> {
    if has_match(s, context_named(c.name@)) {
        s.update(first_index(s, context_named(c.name@)), c)
    } else {
        s.push(c)
    }
}

/// What merging a bundle's optional context does to the context list.
pub open spec fn merge_opt_context_spec(s: Seq<Context>, c: Option<Context>) -> Seq<Context> {
    match c {
        Some(x) => upsert_context_spec(s, x),
        None => s,
    }
}

/// What merging a bundle's optional user does to the user list.
pub open spec fn merge_opt_user_spec(s: Seq<User>, u: Option<User>) -> Seq<User> {
    match u {
        Some(x) => upsert_user_spec(s, x),
        None => s,
    }
}

/// The context a bundle for cluster `cname` carries: the first context whose
/// cluster reference is `cname`, if any.
pub open spec fn bundle_context_spec(contexts: Seq<Context>, cname: Seq<char>) -> Option<Context> {
    if has_match(contexts, context_refers_to(cname)) {
        Some(contexts[first_index(contexts, context_refers_to(cname))])
    } else {
        None
    }
}

/// The user a bundle carries: the first user named by the bundle's context,
/// if the context resolved and the user does.
pub open spec fn bundle_user_spec(users: Seq<User>, ctx: Option<Context>) -> Option<User> {
    match ctx {
        Some(c) => if has_match(users, user_named(c.context.user@)) {
            Some(users[first_index(users, user_named(c.context.user@))])
        } else {
            None
        },
        None => None,
    }
}

impl Config {
    /// Linear scan for the first cluster with the given name.
    pub fn find_cluster(&self, name: &String) -> (r: Option<usize>)
        ensures
            match r {
                Some(i) => first_at(self.clusters@, cluster_named(name@), i as int),
                None => !has_match(self.clusters@, cluster_named(name@)),
            },
    {
        let mut i: usize = 0;
        while i < self.clusters.len()
            invariant
                0 <= i <= self.clusters.len(),
                forall|j: int| 0 <= j < i ==> (#[trigger] self.clusters@[j]).name@ != name@,
            decreases self.clusters.len() - i,
        {
            if self.clusters[i].name == *name {
                return Some(i);
            }
            i += 1;
        }
        proof {
            if has_match(self.clusters@, cluster_named(name@)) {
                lemma_first_index(self.clusters@, cluster_named(name@));
            }
        }
        None
    }

    /// Linear scan for the first user with the given name.
    pub fn find_user(&self, name: &String) -> (r: Option<usize>)
        ensures
            match r {
                Some(i) => first_at(self.users@, user_named(name@), i as int),
                None => !has_match(self.users@, user_named(name@)),
            },
    {
        let mut i: usize = 0;
        while i < self.users.len()
            invariant
                0 <= i <= self.users.len(),
                forall|j: int| 0 <= j < i ==> (#[trigger] self.users@[j]).name@ != name@,
            decreases self.users.len() - i,
        {
            if self.users[i].name == *name {
                return Some(i);
            }
            i += 1;
        }
        proof {
            if has_match(self.users@, user_named(name@)) {
                lemma_first_index(self.users@, user_named(name@));
            }
        }
        None
    }

    /// Linear scan for the first context with the given name.
    pub fn find_context(&self, name: &String) -> (r: Option<usize>)
        ensures
            match r {
                Some(i) => first_at(self.contexts@, context_named(name@), i as int),
                None => !has_match(self.contexts@, context_named(name@)),
            },
    {
        let mut i: usize = 0;
        while i < self.contexts.len()
            invariant
                0 <= i <= self.contexts.len(),
                forall|j: int| 0 <= j < i ==> (#[trigger] self.contexts@[j]).name@ != name@,
            decreases self.contexts.len() - i,
        {
            if self.contexts[i].name == *name {
                return Some(i);
            }
            i += 1;
        }
        proof {
            if has_match(self.contexts@, context_named(name@)) {
                lemma_first_index(self.contexts@, context_named(name@));
            }
        }
        None
    }

    /// Linear scan for the first context whose cluster reference is `cname`.
    pub fn find_context_for_cluster(&self, cname: &String) -> (r: Option<usize>)
        ensures
            match r {
                Some(i) => first_at(self.contexts@, context_refers_to(cname@), i as int),
                None => !has_match(self.contexts@, context_refers_to(cname@)),
            },
    {
        let mut i: usize = 0;
        while i < self.contexts.len()
            invariant
                0 <= i <= self.contexts.len(),
                forall|j: int| 0 <= j < i ==> (#[trigger] self.contexts@[j]).context.cluster@
                    != cname@,
            decreases self.contexts.len() - i,
        {
            if self.contexts[i].context.cluster == *cname {
                return Some(i);
            }
            i += 1;
        }
        proof {
            if has_match(self.contexts@, context_refers_to(cname@)) {
                lemma_first_index(self.contexts@, context_refers_to(cname@));
            }
        }
        None
    }

    /// Replaces the first cluster with the same name in place, or appends
    /// the entry when its name is new.  The other lists are untouched.
    pub fn upsert_cluster(&mut self, c: Cluster)
        ensures
            final(self).clusters@ == upsert_cluster_spec(old(self).clusters@, c),
            final(self).users == old(self).users,
            final(self).contexts == old(self).contexts,
            final(self).current_context == old(self).current_context,
            final(self).preferences == old(self).preferences,
    {
        let idx = self.find_cluster(&c.name);
        match idx {
            Some(i) => {
                proof {
                    lemma_first_index(self.clusters@, cluster_named(c.name@));
                    lemma_first_at_unique(
                        self.clusters@,
                        cluster_named(c.name@),
                        i as int,
                        first_index(self.clusters@, cluster_named(c.name@)),
                    );
                }
                self.clusters[i] = c;
            },
            None => {
                self.clusters.push(c);
            },
        }
    }

    /// Replaces the first user with the same name in place, or appends.
    pub fn upsert_user(&mut self, u: User)
        ensures
            final(self).users@ == upsert_user_spec(old(self).users@, u),
            final(self).clusters == old(self).clusters,
            final(self).contexts == old(self).contexts,
            final(self).current_context == old(self).current_context,
            final(self).preferences == old(self).preferences,
    {
        let idx = self.find_user(&u.name);
        match idx {
            Some(i) => {
                proof {
                    lemma_first_index(self.users@, user_named(u.name@));
                    lemma_first_at_unique(
                        self.users@,
                        user_named(u.name@),
                        i as int,
                        first_index(self.users@, user_named(u.name@)),
                    );
                }
                self.users[i] = u;
            },
            None => {
                self.users.push(u);
            },
        }
    }

    /// Replaces the first context with the same name in place, or appends.
    pub fn upsert_context(&mut self, c: Context)
        ensures
            final(self).contexts@ == upsert_context_spec(old(self).contexts@, c),
            final(self).clusters == old(self).clusters,
            final(self).users == old(self).users,
            final(self).current_context == old(self).current_context,
            final(self).preferences == old(self).preferences,
    {
        let idx = self.find_context(&c.name);
        match idx {
            Some(i) => {
                proof {
                    lemma_first_index(self.contexts@, context_named(c.name@));
                    lemma_first_at_unique(
                        self.contexts@,
                        context_named(c.name@),
                        i as int,
                        first_index(self.contexts@, context_named(c.name@)),
                    );
                }
                self.contexts[i] = c;
            },
            None => {
                self.contexts.push(c);
            },
        }
    }

    /// Removes the cluster at a position; out of bounds is a silent no-op.
    pub fn remove_cluster_at(&mut self, i: usize)
        ensures
            i < old(self).clusters@.len() ==> final(self).clusters@ == old(
                self,
            ).clusters@.remove(i as int),
            i >= old(self).clusters@.len() ==> final(self).clusters == old(self).clusters,
            final(self).users == old(self).users,
            final(self).contexts == old(self).contexts,
            final(self).current_context == old(self).current_context,
            final(self).preferences == old(self).preferences,
    {
        if i < self.clusters.len() {
            self.clusters.remove(i);
        }
    }
}

/// Merges an edited bundle back into the document: each carried entry is
/// insert-or-replace keyed by its name; everything else is untouched.
pub fn merge_bundle(config: &mut Config, bundle: TempConfig)
    ensures
        final(config).clusters@ == upsert_cluster_spec(old(config).clusters@, bundle.cluster),
        final(config).contexts@ == merge_opt_context_spec(old(config).contexts@, bundle.context),
        final(config).users@ == merge_opt_user_spec(old(config).users@, bundle.user),
        final(config).current_context == old(config).current_context,
        final(config).preferences == old(config).preferences,
{
    config.upsert_cluster(bundle.cluster);
    match bundle.context {
        Some(c) => config.upsert_context(c),
        None => {},
    }
    match bundle.user {
        Some(u) => config.upsert_user(u),
        None => {},
    }
}

/// Merges a freshly authored document by appending every entry of each of
/// its lists; this path does not deduplicate by name.
pub fn merge_whole(config: &mut Config, incoming: Config)
    ensures
        final(config).clusters@ == old(config).clusters@ + incoming.clusters@,
        final(config).users@ == old(config).users@ + incoming.users@,
        final(config).contexts@ == old(config).contexts@ + incoming.contexts@,
        final(config).current_context == old(config).current_context,
        final(config).preferences == old(config).preferences,
{
    let mut inc = incoming;
    config.clusters.append(&mut inc.clusters);
    config.users.append(&mut inc.users);
    config.contexts.append(&mut inc.contexts);
}

/// Builds the minimal sub-document for one cluster: the cluster itself, the
/// first context that refers to it, and the first user that context names.
pub fn build_edit_bundle(config: &Config, cluster: &Cluster) -> (r: TempConfig)
    ensures
        r.cluster == *cluster,
        r.context == bundle_context_spec(config.contexts@, cluster.name@),
        r.user == bundle_user_spec(config.users@, r.context),
{
    let ctx_idx = config.find_context_for_cluster(&cluster.name);
    let context: Option<Context> = match ctx_idx {
        Some(i) => {
            proof {
                lemma_first_index(config.contexts@, context_refers_to(cluster.name@));
                lemma_first_at_unique(
                    config.contexts@,
                    context_refers_to(cluster.name@),
                    i as int,
                    first_index(config.contexts@, context_refers_to(cluster.name@)),
                );
            }
            Some(config.contexts[i].clone())
        },
        None => None,
    };
    let user: Option<User> = match &context {
        Some(c) => {
            let uidx = config.find_user(&c.context.user);
            match uidx {
                Some(i) => {
                    proof {
                        lemma_first_index(config.users@, user_named(c.context.user@));
                        lemma_first_at_unique(
                            config.users@,
                            user_named(c.context.user@),
                            i as int,
                            first_index(config.users@, user_named(c.context.user@)),
                        );
                    }
                    Some(config.users[i].clone())
                },
                None => None,
            }
        },
        None => None,
    };
    TempConfig { cluster: cluster.clone(), context, user }
}

/// Insert-or-replace keyed by name never changes an entry's position: a
/// present name keeps the list's length and only that position's entry; an
/// absent name appends.
pub proof fn lemma_upsert_cluster_shape(s: Seq<Cluster>, c: Cluster)
    ensures
        has_match(s, cluster_named(c.name@)) ==> {
            let i = first_index(s, cluster_named(c.name@));
            &&& upsert_cluster_spec(s, c).len() == s.len()
            &&& 0 <= i < s.len()
            &&& s[i].name@ == c.name@
            &&& upsert_cluster_spec(s, c)[i] == c
            &&& forall|j: int|
                0 <= j < s.len() && j != i ==> #[trigger] upsert_cluster_spec(s, c)[j] == s[j]
        },
        !has_match(s, cluster_named(c.name@)) ==> upsert_cluster_spec(s, c) == s.push(c),
{
    if has_match(s, cluster_named(c.name@)) {
        lemma_first_index(s, cluster_named(c.name@));
    }
}

/// Merging the same bundle a second time changes nothing: each of the three
/// lists is left exactly as the first merge left it.
pub proof fn lemma_merge_bundle_idempotent(
    clusters: Seq<Cluster>,
    users: Seq<User>,
    contexts: Seq<Context>,
    b: TempConfig,
)
    ensures
        upsert_cluster_spec(upsert_cluster_spec(clusters, b.cluster), b.cluster)
            == upsert_cluster_spec(clusters, b.cluster),
        merge_opt_context_spec(merge_opt_context_spec(contexts, b.context), b.context)
            == merge_opt_context_spec(contexts, b.context),
        merge_opt_user_spec(merge_opt_user_spec(users, b.user), b.user) == merge_opt_user_spec(
            users,
            b.user,
        ),
{
    lemma_upsert_cluster_idempotent(clusters, b.cluster);
    match b.context {
        Some(c) => lemma_upsert_context_idempotent(contexts, c),
        None => {},
    }
    match b.user {
        Some(u) => lemma_upsert_user_idempotent(users, u),
        None => {},
    }
}

/// A second insert-or-replace of the same cluster entry is a no-op.
pub proof fn lemma_upsert_cluster_idempotent(s: Seq<Cluster>, c: Cluster)
    ensures
        upsert_cluster_spec(upsert_cluster_spec(s, c), c) == upsert_cluster_spec(s, c),
{
    let p = cluster_named(c.name@);
    let s1 = upsert_cluster_spec(s, c);
    if has_match(s, p) {
        let i = first_index(s, p);
        lemma_first_index(s, p);
        assert(first_at(s1, p, i));
        let i1 = first_index(s1, p);
        lemma_first_index(s1, p);
        lemma_first_at_unique(s1, p, i, i1);
        assert(upsert_cluster_spec(s1, c) =~= s1);
    } else {
        lemma_no_match(s, p);
        assert(first_at(s1, p, s.len() as int));
        let i1 = first_index(s1, p);
        lemma_first_index(s1, p);
        lemma_first_at_unique(s1, p, s.len() as int, i1);
        assert(upsert_cluster_spec(s1, c) =~= s1);
    }
}

/// A second insert-or-replace of the same user entry is a no-op.
pub proof fn lemma_upsert_user_idempotent(s: Seq<User>, u: User)
    ensures
        upsert_user_spec(upsert_user_spec(s, u), u) == upsert_user_spec(s, u),
{
    let p = user_named(u.name@);
    let s1 = upsert_user_spec(s, u);
    if has_match(s, p) {
        let i = first_index(s, p);
        lemma_first_index(s, p);
        assert(first_at(s1, p, i));
        let i1 = first_index(s1, p);
        lemma_first_index(s1, p);
        lemma_first_at_unique(s1, p, i, i1);
        assert(upsert_user_spec(s1, u) =~= s1);
    } else {
        lemma_no_match(s, p);
        assert(first_at(s1, p, s.len() as int));
        let i1 = first_index(s1, p);
        lemma_first_index(s1, p);
        lemma_first_at_unique(s1, p, s.len() as int, i1);
        assert(upsert_user_spec(s1, u) =~= s1);
    }
}

/// A second insert-or-replace of the same context entry is a no-op.
pub proof fn lemma_upsert_context_idempotent(s: Seq<Context>, c: Context)
    ensures
        upsert_context_spec(upsert_context_spec(s, c), c) == upsert_context_spec(s, c),
{
    let p = context_named(c.name@);
    let s1 = upsert_context_spec(s, c);
    if has_match(s, p) {
        let i = first_index(s, p);
        lemma_first_index(s, p);
        assert(first_at(s1, p, i));
        let i1 = first_index(s1, p);
        lemma_first_index(s1, p);
        lemma_first_at_unique(s1, p, i, i1);
        assert(upsert_context_spec(s1, c) =~= s1);
    } else {
        lemma_no_match(s, p);
        assert(first_at(s1, p, s.len() as int));
        let i1 = first_index(s1, p);
        lemma_first_index(s1, p);
        lemma_first_at_unique(s1, p, s.len() as int, i1);
        assert(upsert_context_spec(s1, c) =~= s1);
    }
}

} // verus!
