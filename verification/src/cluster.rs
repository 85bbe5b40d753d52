//! A model of the cluster as a reconciliation pass sees it, and what a pass
//! does when it runs against that model: which operations it performs, in
//! which order, and how it leaves the cluster.

use crate::arangodb::ArangoErrorView;
use crate::reconciler::{collection_name, create_from, check_from, next_command, CommandView, EventView};
use vstd::prelude::*;

verus! {

/// The part of a cluster that a pass can tell apart: whether the workload's
/// database is there, which of the numbered collections it holds, and which
/// of them have been populated.
pub struct Cluster {
    pub database_name: Seq<char>,
    pub database: bool,
    pub collections: Set<int>,
    pub populated: Set<int>,
    /// What the cluster answers to work on a collection that is not there.
    pub refusal: Seq<char>,
}

/// The numbers from `from` to `to`, both included.
pub open spec fn numbers(from: int, to: int) -> Set<int> {
    Set::new(|number: int| from <= number <= to)
}

impl Cluster {
    /// The cluster without the database.
    pub open spec fn dropped(self) -> Cluster {
        Cluster { database: false, collections: Set::empty(), populated: Set::empty(), ..self }
    }

    /// The cluster with the database, and nothing in it.
    pub open spec fn created(self) -> Cluster {
        Cluster { database: true, collections: Set::empty(), populated: Set::empty(), ..self }
    }

    /// Whether the database holds the collection with this number.
    pub open spec fn holds(self, number: int) -> bool {
        self.database && self.collections.contains(number)
    }

    /// What the cluster answers to an operation, and how the operation
    /// leaves it. Creating what is there and dropping what is not are
    /// refused, and change nothing.
    pub open spec fn respond(self, command: CommandView) -> (EventView, Cluster) {
        match command {
            CommandView::CheckDatabase => (EventView::Exists(self.database), self),
            CommandView::CheckCollection(number) => (
                EventView::Exists(self.holds(number as int)),
                self,
            ),
            CommandView::DropDatabase => if self.database {
                (EventView::Done(Ok(())), self.dropped())
            } else {
                (
                    EventView::Done(Err(ArangoErrorView::DatabaseNotFound(self.database_name))),
                    self,
                )
            },
            CommandView::CreateDatabase => if !self.database {
                (EventView::Done(Ok(())), self.created())
            } else {
                (EventView::Done(Err(ArangoErrorView::DatabaseExists(self.database_name))), self)
            },
            CommandView::CreateCollection(number) => if !self.database {
                (EventView::Done(Err(ArangoErrorView::InvalidResponse(self.refusal))), self)
            } else if self.collections.contains(number as int) {
                (
                    EventView::Done(
                        Err(ArangoErrorView::CollectionExists(collection_name(number as nat))),
                    ),
                    self,
                )
            } else {
                (
                    EventView::Done(Ok(())),
                    Cluster { collections: self.collections.insert(number as int), ..self },
                )
            },
            CommandView::Populate(number) => if self.holds(number as int) {
                (
                    EventView::Done(Ok(())),
                    Cluster { populated: self.populated.insert(number as int), ..self },
                )
            } else {
                (EventView::Done(Err(ArangoErrorView::InvalidResponse(self.refusal))), self)
            },
            CommandView::Finish(_) => (EventView::Exists(self.database), self),
        }
    }
}

/// An upper bound on the operations that a pass still performs.
pub open spec fn remaining(number_of_collections: u32, pending: CommandView) -> nat {
    let n = number_of_collections as int;
    match pending {
        CommandView::CheckDatabase => (3 * n + 4) as nat,
        CommandView::CheckCollection(number) => if number < n {
            (n - number + 2 * n + 4) as nat
        } else {
            (2 * n + 4) as nat
        },
        CommandView::DropDatabase => (2 * n + 3) as nat,
        CommandView::CreateDatabase => (2 * n + 2) as nat,
        CommandView::CreateCollection(number) => if number < n {
            (2 * (n - number) + 2) as nat
        } else {
            2
        },
        CommandView::Populate(number) => if number < n {
            (2 * (n - number) + 1) as nat
        } else {
            1
        },
        CommandView::Finish(_) => 0,
    }
}

/// What a pass did: the operations in the order in which they were due, the
/// last of them the end of the pass, and the cluster as the pass left it.
pub struct Pass {
    pub commands: Seq<CommandView>,
    pub cluster: Cluster,
}

/// The pass from the point at which `pending` is due.
pub open spec fn pass_from(
    number_of_collections: u32,
    drop_first: bool,
    pending: CommandView,
    cluster: Cluster,
) -> Pass
    decreases remaining(number_of_collections, pending),
{
    if pending is Finish {
        Pass { commands: seq![pending], cluster }
    } else {
        let answer = cluster.respond(pending);
        let rest = pass_from(
            number_of_collections,
            drop_first,
            next_command(number_of_collections, drop_first, pending, answer.0),
            answer.1,
        );
        Pass { commands: seq![pending] + rest.commands, cluster: rest.cluster }
    }
}

/// A whole pass against `cluster`.
pub open spec fn pass(number_of_collections: u32, drop_first: bool, cluster: Cluster) -> Pass {
    pass_from(number_of_collections, drop_first, CommandView::CheckDatabase, cluster)
}

/// Building the database anew: create it, then for each collection in the
/// order of the numbers create the collection and populate it, and end
/// with the report that the database was not reused.
pub open spec fn creation(number_of_collections: u32) -> Seq<CommandView> {
    Seq::new(
        (2 * number_of_collections + 2) as nat,
        |k: int|
            if k == 0 {
                CommandView::CreateDatabase
            } else if k == 2 * number_of_collections + 1 {
                CommandView::Finish(Ok(false))
            } else if k % 2 == 1 {
                CommandView::CreateCollection(((k + 1) / 2) as u32)
            } else {
                CommandView::Populate((k / 2) as u32)
            },
    )
}

/// Probing the collections with the numbers from one to `last`, in order.
pub open spec fn checks(last: int) -> Seq<CommandView> {
    Seq::new(last as nat, |k: int| CommandView::CheckCollection((k + 1) as u32))
}

/// Whether an operation creates or drops anything, or inserts documents.
pub open spec fn changes_cluster(command: CommandView) -> bool {
    ||| command is DropDatabase
    ||| command is CreateDatabase
    ||| command is CreateCollection
    ||| command is Populate
}

proof fn lemma_create_from(
    number_of_collections: u32,
    drop_first: bool,
    number: int,
    cluster: Cluster,
)
    requires
        1 <= number <= number_of_collections + 1,
        cluster.database,
        forall|j: int| number <= j <= number_of_collections ==> !cluster.collections.contains(j),
    ensures
        ({
            let done = pass_from(
                number_of_collections,
                drop_first,
                create_from(number_of_collections, number),
                cluster,
            );
            &&& done.commands == creation(number_of_collections).subrange(
                2 * number - 1,
                2 * number_of_collections + 2,
            )
            &&& done.cluster == (Cluster {
                collections: cluster.collections + numbers(number, number_of_collections as int),
                populated: cluster.populated + numbers(number, number_of_collections as int),
                ..cluster
            })
        }),
    decreases number_of_collections + 1 - number,
{
    let n = number_of_collections;
    let whole = creation(n);
    let done = pass_from(n, drop_first, create_from(n, number), cluster);
    if number == n + 1 {
        assert(done.commands =~= whole.subrange(2 * number - 1, 2 * n + 2));
        assert(cluster.collections + numbers(number, n as int) =~= cluster.collections);
        assert(cluster.populated + numbers(number, n as int) =~= cluster.populated);
    } else {
        let create = CommandView::CreateCollection(number as u32);
        let populate = CommandView::Populate(number as u32);
        let created = Cluster { collections: cluster.collections.insert(number), ..cluster };
        let populated = Cluster { populated: cluster.populated.insert(number), ..created };
        assert(cluster.respond(create) == (EventView::Done(Ok(())), created));
        assert(next_command(n, drop_first, create, EventView::Done(Ok(()))) == populate);
        assert(created.respond(populate) == (EventView::Done(Ok(())), populated));
        assert(next_command(n, drop_first, populate, EventView::Done(Ok(()))) == create_from(
            n,
            number + 1,
        ));
        let rest = pass_from(n, drop_first, create_from(n, number + 1), populated);
        lemma_create_from(n, drop_first, number + 1, populated);
        let middle = pass_from(n, drop_first, populate, created);
        assert(middle.commands == seq![populate] + rest.commands);
        assert(done.commands == seq![create] + middle.commands);
        assert(done.commands =~= whole.subrange(2 * number - 1, 2 * n + 2));
        assert(populated.collections + numbers(number + 1, n as int) =~= cluster.collections
            + numbers(number, n as int));
        assert(populated.populated + numbers(number + 1, n as int) =~= cluster.populated + numbers(
            number,
            n as int,
        ));
    }
}

proof fn lemma_build(number_of_collections: u32, drop_first: bool, cluster: Cluster)
    requires
        !cluster.database,
    ensures
        ({
            let done = pass_from(
                number_of_collections,
                drop_first,
                CommandView::CreateDatabase,
                cluster,
            );
            &&& done.commands == creation(number_of_collections)
            &&& done.cluster == (Cluster {
                database: true,
                collections: numbers(1, number_of_collections as int),
                populated: numbers(1, number_of_collections as int),
                ..cluster
            })
        }),
{
    let n = number_of_collections;
    let empty = cluster.created();
    let done = pass_from(n, drop_first, CommandView::CreateDatabase, cluster);
    let rest = pass_from(n, drop_first, create_from(n, 1), empty);
    lemma_create_from(n, drop_first, 1, empty);
    assert(done.commands == seq![CommandView::CreateDatabase] + rest.commands);
    assert(done.commands =~= creation(n));
    assert(empty.collections + numbers(1, n as int) =~= numbers(1, n as int));
    assert(empty.populated + numbers(1, n as int) =~= numbers(1, n as int));
}

proof fn lemma_check_from(
    number_of_collections: u32,
    number: int,
    missing: int,
    cluster: Cluster,
)
    requires
        cluster.database,
        1 <= number <= missing <= number_of_collections + 1,
        forall|j: int| number <= j < missing ==> cluster.collections.contains(j),
        missing <= number_of_collections ==> !cluster.collections.contains(missing),
    ensures
        ({
            let done = pass_from(
                number_of_collections,
                false,
                check_from(number_of_collections, number),
                cluster,
            );
            let rebuilt = pass_from(
                number_of_collections,
                false,
                CommandView::DropDatabase,
                cluster,
            );
            if missing <= number_of_collections {
                &&& done.commands == checks(missing).subrange(number - 1, missing)
                    + rebuilt.commands
                &&& done.cluster == rebuilt.cluster
            } else {
                &&& done.commands == checks(number_of_collections as int).subrange(
                    number - 1,
                    number_of_collections as int,
                ) + seq![CommandView::Finish(Ok(true))]
                &&& done.cluster == cluster
            }
        }),
    decreases missing - number,
{
    let n = number_of_collections;
    let done = pass_from(n, false, check_from(n, number), cluster);
    let rebuilt = pass_from(n, false, CommandView::DropDatabase, cluster);
    if number == n + 1 {
        assert(done.commands =~= checks(n as int).subrange(number - 1, n as int)
            + seq![CommandView::Finish(Ok(true))]);
    } else {
        let check = CommandView::CheckCollection(number as u32);
        assert(check_from(n, number) == check);
        if number == missing {
            assert(cluster.respond(check) == (EventView::Exists(false), cluster));
            assert(next_command(n, false, check, EventView::Exists(false))
                == CommandView::DropDatabase);
            assert(done.commands == seq![check] + rebuilt.commands);
            assert(checks(missing).subrange(number - 1, missing) =~= seq![check]);
        } else {
            assert(cluster.respond(check) == (EventView::Exists(true), cluster));
            assert(next_command(n, false, check, EventView::Exists(true)) == check_from(
                n,
                number + 1,
            ));
            let rest = pass_from(n, false, check_from(n, number + 1), cluster);
            lemma_check_from(n, number + 1, missing, cluster);
            assert(done.commands == seq![check] + rest.commands);
            if missing <= n {
                assert(checks(missing).subrange(number - 1, missing) =~= seq![check] + checks(
                    missing,
                ).subrange(number, missing));
                assert(done.commands =~= checks(missing).subrange(number - 1, missing)
                    + rebuilt.commands);
            } else {
                assert(checks(n as int).subrange(number - 1, n as int) =~= seq![check] + checks(
                    n as int,
                ).subrange(number, n as int));
                assert(done.commands =~= checks(n as int).subrange(number - 1, n as int)
                    + seq![CommandView::Finish(Ok(true))]);
            }
        }
    }
}

proof fn lemma_rebuild(number_of_collections: u32, drop_first: bool, cluster: Cluster)
    requires
        cluster.database,
    ensures
        ({
            let done = pass_from(
                number_of_collections,
                drop_first,
                CommandView::DropDatabase,
                cluster,
            );
            &&& done.commands == seq![CommandView::DropDatabase] + creation(number_of_collections)
            &&& done.cluster == (Cluster {
                database: true,
                collections: numbers(1, number_of_collections as int),
                populated: numbers(1, number_of_collections as int),
                ..cluster
            })
        }),
{
    lemma_build(number_of_collections, drop_first, cluster.dropped());
}

/// Against a cluster without the database, a pass probes the database and
/// then builds it: it creates the database and, for each number from one to
/// `number_of_collections` in turn, creates the collection with that number
/// and only then populates it. It reports that the database was not reused,
/// and leaves exactly these collections, all populated.
pub proof fn lemma_fresh_cluster(number_of_collections: u32, drop_first: bool, cluster: Cluster)
    requires
        !cluster.database,
    ensures
        ({
            let done = pass(number_of_collections, drop_first, cluster);
            &&& done.commands == seq![CommandView::CheckDatabase] + creation(number_of_collections)
            &&& done.commands.last() == CommandView::Finish(Ok(false))
            &&& forall|number: int|
                1 <= number <= number_of_collections ==> {
                    &&& #[trigger] done.commands[2 * number] == CommandView::CreateCollection(
                        number as u32,
                    )
                    &&& done.commands[2 * number + 1] == CommandView::Populate(number as u32)
                }
            &&& done.cluster.database
            &&& done.cluster.collections == numbers(1, number_of_collections as int)
            &&& done.cluster.populated == numbers(1, number_of_collections as int)
        }),
{
    lemma_build(number_of_collections, drop_first, cluster);
}

/// Against a database that holds every collection, a pass that is not told
/// to drop first only probes: the database, then each collection in turn.
/// It creates nothing, drops nothing, inserts nothing, leaves the cluster
/// as it was, and reports that the database was reused.
pub proof fn lemma_complete_database_is_reused(number_of_collections: u32, cluster: Cluster)
    requires
        cluster.database,
        forall|number: int|
            1 <= number <= number_of_collections ==> cluster.collections.contains(number),
    ensures
        ({
            let done = pass(number_of_collections, false, cluster);
            &&& done.commands == seq![CommandView::CheckDatabase] + checks(
                number_of_collections as int,
            ) + seq![CommandView::Finish(Ok(true))]
            &&& done.commands.last() == CommandView::Finish(Ok(true))
            &&& forall|k: int|
                0 <= k < done.commands.len() ==> !changes_cluster(#[trigger] done.commands[k])
            &&& done.cluster == cluster
        }),
{
    let n = number_of_collections;
    lemma_check_from(n, 1, n + 1, cluster);
    let done = pass(n, false, cluster);
    let rest = pass_from(n, false, check_from(n, 1), cluster);
    assert(done.commands == seq![CommandView::CheckDatabase] + rest.commands);
    assert(checks(n as int).subrange(0, n as int) =~= checks(n as int));
    assert(done.commands =~= seq![CommandView::CheckDatabase] + checks(n as int)
        + seq![CommandView::Finish(Ok(true))]);
}

/// Against an existing database, a pass that is told to drop first drops
/// the database once, right after probing it, creates it once, right after
/// that, and builds every collection, whatever the database held. It probes
/// no collection.
pub proof fn lemma_drop_first(number_of_collections: u32, cluster: Cluster)
    requires
        cluster.database,
    ensures
        ({
            let done = pass(number_of_collections, true, cluster);
            &&& done.commands == seq![CommandView::CheckDatabase, CommandView::DropDatabase]
                + creation(number_of_collections)
            &&& forall|k: int|
                0 <= k < done.commands.len() ==> (#[trigger] done.commands[k] is DropDatabase
                    <==> k == 1)
            &&& forall|k: int|
                0 <= k < done.commands.len() ==> (#[trigger] done.commands[k] is CreateDatabase
                    <==> k == 2)
            &&& done.commands.last() == CommandView::Finish(Ok(false))
            &&& done.cluster.database
            &&& done.cluster.collections == numbers(1, number_of_collections as int)
            &&& done.cluster.populated == numbers(1, number_of_collections as int)
        }),
{
    let n = number_of_collections;
    lemma_rebuild(n, true, cluster);
    let done = pass(n, true, cluster);
    let rest = pass_from(n, true, CommandView::DropDatabase, cluster);
    assert(done.commands == seq![CommandView::CheckDatabase] + rest.commands);
    assert(done.commands =~= seq![CommandView::CheckDatabase, CommandView::DropDatabase]
        + creation(n));
}

/// Against a database that holds the collections up to number `present`
/// and lacks the next one, a pass that is not told to drop first probes up
/// to the missing collection and then repairs nothing in place: it drops
/// the database, creates it again and builds every collection, the ones
/// that were there included.
pub proof fn lemma_incomplete_database_is_rebuilt(
    number_of_collections: u32,
    present: int,
    cluster: Cluster,
)
    requires
        cluster.database,
        0 <= present < number_of_collections,
        forall|number: int| 1 <= number <= present ==> cluster.collections.contains(number),
        !cluster.collections.contains(present + 1),
    ensures
        ({
            let done = pass(number_of_collections, false, cluster);
            &&& done.commands == seq![CommandView::CheckDatabase] + checks(present + 1)
                + seq![CommandView::DropDatabase] + creation(number_of_collections)
            &&& done.commands.last() == CommandView::Finish(Ok(false))
            &&& done.cluster.database
            &&& done.cluster.collections == numbers(1, number_of_collections as int)
            &&& done.cluster.populated == numbers(1, number_of_collections as int)
        }),
{
    let n = number_of_collections;
    lemma_check_from(n, 1, present + 1, cluster);
    lemma_rebuild(n, false, cluster);
    let done = pass(n, false, cluster);
    let rest = pass_from(n, false, check_from(n, 1), cluster);
    assert(done.commands == seq![CommandView::CheckDatabase] + rest.commands);
    assert(checks(present + 1).subrange(0, present + 1) =~= checks(present + 1));
    assert(done.commands =~= seq![CommandView::CheckDatabase] + checks(present + 1)
        + seq![CommandView::DropDatabase] + creation(n));
}

} // verus!
