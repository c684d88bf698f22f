use vstd::prelude::*;

verus! {

/// Latest-value cell for spectrum snapshots, held as the two ends of a
/// `triple_buffer`. Each magnitude is the 32-bit encoding of a number. The
/// writer never waits; the reader sees the newest whole snapshot.
#[verifier::external_body]
pub struct SnapshotCell {
    input: triple_buffer::Input<Vec<u32>>,
    output: triple_buffer::Output<Vec<u32>>,
}

/// The newest snapshot that was written into the cell.
pub uninterp spec fn newest(c: SnapshotCell) -> Seq<u32>;

/// Relies on triple_buffer::triple_buffer: a cell whose value is a copy of `initial`.
#[verifier::external_body]
fn cell_new(initial: &Vec<u32>) -> (r: SnapshotCell)
    ensures
        newest(r) == initial@,
{
    let (input, output) = triple_buffer::triple_buffer(initial);
    SnapshotCell { input, output }
}

/// Relies on triple_buffer::Input::write: the written value becomes the newest.
#[verifier::external_body]
fn cell_write(c: &mut SnapshotCell, s: Vec<u32>)
    ensures
        newest(*final(c)) == s@,
{
    c.input.write(s)
}

/// Relies on triple_buffer::Output::read: the newest value, copied out; the
/// cell keeps it.
#[verifier::external_body]
fn cell_read(c: &mut SnapshotCell) -> (r: Vec<u32>)
    ensures
        r@ == newest(*old(c)),
        newest(*final(c)) == newest(*old(c)),
{
    c.output.read().clone()
}

/// `after` is the cell `before` once `s` has been published into it.
pub open spec fn published(before: SnapshotCell, s: Seq<u32>, after: SnapshotCell) -> bool {
    newest(after) == s
}

impl SnapshotCell {
    /// A cell that holds `initial` until the first publication.
    pub fn new(initial: &Vec<u32>) -> (r: Self)
        ensures
            newest(r) == initial@,
    {
        cell_new(initial)
    }

    /// Publishes `snapshot`; it replaces whatever was published before, read or not.
    pub fn publish(&mut self, snapshot: Vec<u32>)
        ensures
            published(*old(self), snapshot@, *final(self)),
    {
        cell_write(self, snapshot)
    }

    /// The newest published snapshot. Reading does not consume it: a second
    /// read with no publication between returns the same snapshot.
    pub fn latest(&mut self) -> (r: Vec<u32>)
        ensures
            r@ == newest(*old(self)),
            newest(*final(self)) == newest(*old(self)),
    {
        cell_read(self)
    }
}

/// The latest publication wins: after `s1` and then `s2` are published with no
/// read between, a read returns `s2`, and not `s1` where the two differ.
pub proof fn lemma_latest_wins(
    c0: SnapshotCell,
    s1: Seq<u32>,
    c1: SnapshotCell,
    s2: Seq<u32>,
    c2: SnapshotCell,
)
    requires
        published(c0, s1, c1),
        published(c1, s2, c2),
    ensures
        newest(c2) == s2,
        s1 != s2 ==> newest(c2) != s1,
{
}

} // verus!
