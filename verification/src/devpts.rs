use vstd::prelude::*;
use crate::error::SystemError;

verus! {

/// The longest name of a node.
pub const DEV_PTYFS_MAX_NAMELEN: usize = 16;

/// How many slave nodes there can be.
pub const PTY_NR_LIMIT: usize = 4096;

/// What a node of a file system is.
#[derive(Clone, Copy, Debug, PartialEq, Eq, Structural)]
pub enum FileType {
    File,
    Dir,
    BlockDevice,
    CharDevice,
    Pipe,
    SymLink,
    Socket,
}

/// What a file system says of itself.
#[derive(Clone, Copy, Debug, PartialEq, Eq, Structural)]
pub struct FsInfo {
    pub blk_dev_id: usize,
    pub max_name_len: usize,
}

/// The first position from `from` on at which two names differ, or at which
/// one of them ends.
pub open spec fn mismatch(a: Seq<u8>, b: Seq<u8>, from: int) -> int
    decreases a.len() - from,
{
    if from < 0 || from >= a.len() || from >= b.len() || a[from] != b[from] {
        from
    } else {
        mismatch(a, b, from + 1)
    }
}

/// Whether two names agree on their first `k` bytes.
pub open spec fn common_prefix(a: Seq<u8>, b: Seq<u8>, k: int) -> bool {
    &&& 0 <= k <= a.len()
    &&& k <= b.len()
    &&& forall|i: int| 0 <= i < k ==> a[i] == b[i]
}

/// Whether two names agree on their first `k` bytes and no further.
pub open spec fn splits_at(a: Seq<u8>, b: Seq<u8>, k: int) -> bool {
    &&& common_prefix(a, b, k)
    &&& (k == a.len() || k == b.len() || a[k] != b[k])
}

/// The order of the names in a directory: byte by byte, a name before its
/// extensions.
pub open spec fn name_lt(a: Seq<u8>, b: Seq<u8>) -> bool {
    let k = mismatch(a, b, 0);
    k < b.len() && (k >= a.len() || a[k] < b[k])
}

/// Whether the names of a sequence stand in strictly ascending order.
pub open spec fn ascending(names: Seq<Seq<u8>>) -> bool {
    forall|i: int, j: int| 0 <= i < j < names.len() ==> name_lt(names[i], names[j])
}

/// From a position up to which two names agree, the mismatch is where they
/// split.
pub proof fn lemma_mismatch_splits(a: Seq<u8>, b: Seq<u8>, from: int)
    requires
        common_prefix(a, b, from),
    ensures
        splits_at(a, b, mismatch(a, b, from)),
        from <= mismatch(a, b, from),
    decreases a.len() - from,
{
    if !(from >= a.len() || from >= b.len() || a[from] != b[from]) {
        lemma_mismatch_splits(a, b, from + 1);
    }
}

/// Two names split at one position only, and the mismatch is that position.
pub proof fn lemma_split_is_mismatch(a: Seq<u8>, b: Seq<u8>, k: int)
    requires
        splits_at(a, b, k),
    ensures
        mismatch(a, b, 0) == k,
{
    lemma_mismatch_splits(a, b, 0);
    let m = mismatch(a, b, 0);
    if m < k {
        assert(a[m] == b[m]);
    } else if k < m {
        assert(a[k] == b[k]);
    }
}

/// No name stands before itself, and of two different names exactly one
/// stands before the other.
pub proof fn lemma_name_lt_total(a: Seq<u8>, b: Seq<u8>)
    ensures
        !name_lt(a, a),
        a != b ==> name_lt(a, b) != name_lt(b, a),
        a == b ==> !name_lt(a, b),
{
    lemma_mismatch_splits(a, a, 0);
    lemma_mismatch_splits(a, b, 0);
    let k = mismatch(a, b, 0);
    assert(splits_at(b, a, k));
    lemma_split_is_mismatch(b, a, k);
    if a != b {
        if k == a.len() && k == b.len() {
            assert(a =~= b);
        }
    }
}

/// The order of names is transitive.
pub proof fn lemma_name_lt_transitive(a: Seq<u8>, b: Seq<u8>, c: Seq<u8>)
    requires
        name_lt(a, b),
        name_lt(b, c),
    ensures
        name_lt(a, c),
{
    lemma_mismatch_splits(a, b, 0);
    lemma_mismatch_splits(b, c, 0);
    let k1 = mismatch(a, b, 0);
    let k2 = mismatch(b, c, 0);
    let k = if k1 <= k2 {
        k1
    } else {
        k2
    };
    assert(splits_at(a, c, k)) by {
        assert forall|i: int| 0 <= i < k implies a[i] == c[i] by {
            assert(a[i] == b[i]);
            assert(b[i] == c[i]);
        }
        if k1 < k2 {
            if k1 < a.len() {
                assert(b[k1] == c[k1]);
            }
        } else if k2 < k1 {
            assert(a[k2] == b[k2]);
        }
    }
    lemma_split_is_mismatch(a, c, k);
    if k1 < k2 {
        if k1 < a.len() {
            assert(b[k1] == c[k1]);
        }
    } else if k2 < k1 {
        assert(a[k2] == b[k2]);
    }
}

/// In an ascending sequence of names none stands twice.
pub proof fn lemma_ascending_is_duplicate_free(names: Seq<Seq<u8>>, i: int, j: int)
    requires
        ascending(names),
        0 <= i < names.len(),
        0 <= j < names.len(),
        i != j,
    ensures
        names[i] != names[j],
{
    lemma_name_lt_total(names[i], names[j]);
    if i < j {
        assert(name_lt(names[i], names[j]));
    } else {
        assert(name_lt(names[j], names[i]));
    }
}

/// Whether the name `a` stands before the name `b`.
pub fn name_before(a: &[u8], b: &[u8]) -> (r: bool)
    ensures
        r == name_lt(a@, b@),
{
    let mut i: usize = 0;
    while i < a.len() && i < b.len() && a[i] == b[i]
        invariant
            i <= a@.len(),
            i <= b@.len(),
            mismatch(a@, b@, 0) == mismatch(a@, b@, i as int),
        decreases a@.len() - i,
    {
        i += 1;
    }
    i < b.len() && (i >= a.len() || a[i] < b[i])
}

/// Whether two names are the same.
pub fn name_eq(a: &[u8], b: &[u8]) -> (r: bool)
    ensures
        r == (a@ == b@),
{
    if a.len() != b.len() {
        return false;
    }
    let mut i: usize = 0;
    while i < a.len()
        invariant
            i <= a@.len(),
            a@.len() == b@.len(),
            forall|j: int| 0 <= j < i ==> a@[j] == b@[j],
        decreases a@.len() - i,
    {
        if a[i] != b[i] {
            return false;
        }
        i += 1;
    }
    assert(a@ =~= b@);
    true
}

/// A copy of a name.
pub fn name_to_vec(a: &[u8]) -> (r: Vec<u8>)
    ensures
        r@ == a@,
{
    let mut out: Vec<u8> = Vec::new();
    let mut i: usize = 0;
    while i < a.len()
        invariant
            i <= a@.len(),
            out@ == a@.subrange(0, i as int),
        decreases a@.len() - i,
    {
        out.push(a[i]);
        i += 1;
        assert(out@ =~= a@.subrange(0, i as int));
    }
    assert(out@ =~= a@);
    out
}

/// The node of a slave in the directory: a character device of that name.
#[derive(Debug, PartialEq, Eq)]
pub struct TtyDevice {
    pub name: Vec<u8>,
}

/// The directory of the slave nodes.
#[derive(Debug)]
pub struct PtsDevInode {
    /// The names of the nodes, in ascending order.
    pub children: Option<Vec<Vec<u8>>>,
}

impl PtsDevInode {
    /// The names of the nodes, in the order of the directory.
    pub open spec fn names(&self) -> Seq<Seq<u8>> {
        match self.children {
            Some(children) => Seq::new(children@.len(), |i: int| children@[i]@),
            None => Seq::empty(),
        }
    }

    /// Whether the directory holds a node of this name.
    pub open spec fn has(&self, name: Seq<u8>) -> bool {
        self.names().contains(name)
    }

    /// The directory has its list of nodes, and the names in it ascend, so
    /// that none stands twice.
    pub open spec fn wf(&self) -> bool {
        self.children is Some && ascending(self.names())
    }

    /// The list of nodes of a directory that has one.
    pub fn children_unchecked(&self) -> (r: &Vec<Vec<u8>>)
        requires
            self.children is Some,
        ensures
            Some(*r) == self.children,
    {
        self.children.as_ref().unwrap()
    }

    /// The list of nodes of a directory that has one, to be changed in
    /// place. Whoever changes it answers for the order of the names.
    pub fn children_unchecked_mut(&mut self) -> (r: &mut Vec<Vec<u8>>)
        requires
            old(self).children is Some,
        ensures
            Some(*r) == old(self).children,
            final(self).children == Some(*final(r)),
    {
        self.children.as_mut().unwrap()
    }

    /// The position at which `name` stands or would stand: before it stand
    /// the names that come before `name`, and none of them from there on.
    fn position(&self, name: &[u8]) -> (r: usize)
        requires
            self.wf(),
        ensures
            r <= self.names().len(),
            forall|i: int| 0 <= i < r ==> name_lt(self.names()[i], name@),
            forall|i: int| r <= i < self.names().len() ==> !name_lt(self.names()[i], name@),
    {
        let children = self.children_unchecked();
        let mut i: usize = 0;
        while i < children.len() && name_before(children[i].as_slice(), name)
            invariant
                Some(*children) == self.children,
                i <= children@.len(),
                forall|j: int| 0 <= j < i ==> name_lt(self.names()[j], name@),
            decreases children@.len() - i,
        {
            i += 1;
        }
        proof {
            assert forall|j: int| i <= j < self.names().len() implies !name_lt(
                self.names()[j],
                name@,
            ) by {
                if i < j && name_lt(self.names()[j], name@) {
                    assert(name_lt(self.names()[i as int], self.names()[j]));
                    lemma_name_lt_transitive(self.names()[i as int], self.names()[j], name@);
                }
            }
        }
        i
    }

    /// Whether the directory holds a node of this name.
    pub fn contains_key(&self, name: &[u8]) -> (r: bool)
        requires
            self.wf(),
        ensures
            r == self.has(name@),
    {
        let at = self.position(name);
        let children = self.children_unchecked();
        let found = at < children.len() && name_eq(children[at].as_slice(), name);
        proof {
            if found {
                assert(self.names()[at as int] == name@);
            } else {
                assert forall|j: int| 0 <= j < self.names().len() implies self.names()[j]
                    != name@ by {
                    lemma_name_lt_total(self.names()[j], name@);
                    if at < j {
                        assert(name_lt(self.names()[at as int], self.names()[j]));
                        lemma_name_lt_total(self.names()[at as int], name@);
                    }
                }
            }
        }
        found
    }
}

/// The root of the file system of the slave nodes, as the file system holds
/// it.
#[derive(Debug)]
pub struct LockedDevPtsFSInode {
    pub inner: PtsDevInode,
    pub file_type: FileType,
}

impl LockedDevPtsFSInode {
    /// The entries of a directory: itself, its parent, and then its nodes in
    /// ascending order.
    pub open spec fn listing(&self) -> Seq<Seq<u8>> {
        seq![seq![46u8], seq![46u8, 46u8]] + self.inner.names()
    }

    /// Lists the entries of the directory. A node that is no directory has
    /// none to list.
    pub fn list(&self) -> (r: Result<Vec<Vec<u8>>, SystemError>)
        requires
            self.inner.wf(),
        ensures
            self.file_type != FileType::Dir ==> r == Err::<Vec<Vec<u8>>, SystemError>(
                SystemError::NotADirectory,
            ),
            self.file_type == FileType::Dir ==> {
                &&& r is Ok
                &&& r->Ok_0@.len() == self.listing().len() == self.inner.names().len() + 2
                &&& forall|i: int|
                    0 <= i < self.listing().len() ==> (#[trigger] r->Ok_0@[i])@
                        == self.listing()[i]
            },
    {
        if self.file_type != FileType::Dir {
            return Err(SystemError::NotADirectory);
        }
        let mut keys: Vec<Vec<u8>> = Vec::new();
        keys.push(vec![46u8]);
        keys.push(vec![46u8, 46u8]);
        let children = self.inner.children_unchecked();
        let mut i: usize = 0;
        while i < children.len()
            invariant
                Some(*children) == self.inner.children,
                i <= children@.len(),
                keys@.len() == i + 2,
                keys@[0]@ == seq![46u8],
                keys@[1]@ == seq![46u8, 46u8],
                forall|j: int| 0 <= j < i ==> keys@[j + 2]@ == children@[j]@,
            decreases children@.len() - i,
        {
            keys.push(name_to_vec(children[i].as_slice()));
            i += 1;
        }
        assert forall|i: int| 0 <= i < self.listing().len() implies (#[trigger] keys@[i])@
            == self.listing()[i] by {
            if i >= 2 {
                assert(keys@[(i - 2) + 2]@ == children@[i - 2]@);
            }
        }
        Ok(keys)
    }
}

/// The file system of the slave nodes.
#[derive(Debug)]
pub struct DevPtsFs {
    pub root_inode: LockedDevPtsFSInode,
    /// How many nodes were created, counted modulo 2^32.
    pub pts_count: u32,
}

impl DevPtsFs {
    /// The file system as it is mounted: an empty directory.
    pub fn new() -> (r: DevPtsFs)
        ensures
            r.root_inode.inner.wf(),
            r.root_inode.inner.names() == Seq::<Seq<u8>>::empty(),
            r.root_inode.file_type == FileType::Dir,
            r.pts_count == 0,
    {
        let r = DevPtsFs {
            root_inode: LockedDevPtsFSInode {
                inner: PtsDevInode { children: Some(Vec::new()) },
                file_type: FileType::Dir,
            },
            pts_count: 0,
        };
        assert(r.root_inode.inner.names() =~= Seq::<Seq<u8>>::empty());
        r
    }

    pub fn root_inode(&self) -> (r: &LockedDevPtsFSInode)
        ensures
            *r == self.root_inode,
    {
        &self.root_inode
    }

    /// The file system sits on no block device and takes names of up to
    /// `DEV_PTYFS_MAX_NAMELEN` bytes.
    pub fn info(&self) -> (r: FsInfo)
        ensures
            r == (FsInfo { blk_dev_id: 0, max_name_len: DEV_PTYFS_MAX_NAMELEN }),
    {
        FsInfo { blk_dev_id: 0, max_name_len: DEV_PTYFS_MAX_NAMELEN }
    }

    /// What creating a node `name` of the kind `file_type` comes to: only
    /// character devices can be created, and only under a name that is free.
    pub open spec fn create_result(&self, name: Seq<u8>, file_type: FileType) -> Result<
        (),
        SystemError,
    > {
        if file_type != FileType::CharDevice {
            Err(SystemError::NotSupported)
        } else if self.root_inode.inner.has(name) {
            Err(SystemError::AlreadyExists)
        } else {
            Ok(())
        }
    }

    /// Creates the node `name` in the directory and counts it. The
    /// directory then holds the names it held and `name`, in ascending
    /// order.
    pub fn create_with_data(&mut self, name: &[u8], file_type: FileType, _mode: u32, _data: usize)
        -> (r: Result<TtyDevice, SystemError>)
        requires
            old(self).root_inode.inner.wf(),
        ensures
            final(self).root_inode.inner.wf(),
            final(self).root_inode.file_type == old(self).root_inode.file_type,
            match old(self).create_result(name@, file_type) {
                Err(e) => {
                    &&& r == Err::<TtyDevice, SystemError>(e)
                    &&& final(self).root_inode.inner.names() == old(self).root_inode.inner.names()
                    &&& final(self).pts_count == old(self).pts_count
                },
                Ok(_) => {
                    &&& r is Ok
                    &&& r->Ok_0.name@ == name@
                    &&& final(self).pts_count == if old(self).pts_count == u32::MAX {
                        0u32
                    } else {
                        (old(self).pts_count + 1) as u32
                    }
                    &&& final(self).root_inode.inner.names().len() == old(
                        self,
                    ).root_inode.inner.names().len() + 1
                    &&& forall|n: Seq<u8>|
                        final(self).root_inode.inner.has(n) <==> (n == name@ || old(
                            self,
                        ).root_inode.inner.has(n))
                },
            },
    {
        if file_type != FileType::CharDevice {
            return Err(SystemError::NotSupported);
        }
        if self.root_inode.inner.contains_key(name) {
            return Err(SystemError::AlreadyExists);
        }
        let at = self.root_inode.inner.position(name);
        let ghost before = old(self).root_inode.inner.names();
        match &mut self.root_inode.inner.children {
            Some(children) => {
                children.insert(at, name_to_vec(name));
            },
            None => {},
        }
        self.pts_count = self.pts_count.wrapping_add(1);
        proof {
            let after = self.root_inode.inner.names();
            assert(after =~= before.insert(at as int, name@));
            assert forall|i: int, j: int| 0 <= i < j < after.len() implies name_lt(
                after[i],
                after[j],
            ) by {
                if j == at {
                    assert(after[i] == before[i]);
                } else if i == at {
                    assert(after[j] == before[j - 1]);
                    lemma_name_lt_total(before[j - 1], name@);
                    assert(before.contains(before[j - 1]));
                } else if i < at && at < j {
                    assert(after[i] == before[i] && after[j] == before[j - 1]);
                } else if j < at {
                    assert(after[i] == before[i] && after[j] == before[j]);
                } else {
                    assert(after[i] == before[i - 1] && after[j] == before[j - 1]);
                }
            }
            assert forall|n: Seq<u8>| after.contains(n) <==> (n == name@ || before.contains(
                n,
            )) by {
                if after.contains(n) {
                    let i = choose|i: int| 0 <= i < after.len() && after[i] == n;
                    if i < at {
                        assert(before[i] == n);
                    } else if i > at {
                        assert(before[i - 1] == n);
                    }
                }
                if n == name@ {
                    assert(after[at as int] == n);
                }
                if before.contains(n) {
                    let i = choose|i: int| 0 <= i < before.len() && before[i] == n;
                    if i < at {
                        assert(after[i] == n);
                    } else {
                        assert(after[i + 1] == n);
                    }
                }
            }
        }
        Ok(TtyDevice { name: name_to_vec(name) })
    }
}

} // verus!
