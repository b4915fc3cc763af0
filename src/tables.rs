use vstd::prelude::*;

verus! {

/// The mount point of the shared BPF filesystem, where tables are published.
pub const BPF_FS_ROOT: &'static str = "/sys/fs/bpf";

/// The canonical path of the table named `name`: `<root>/<name>`.
pub open spec fn table_path_spec(name: Seq<char>) -> Seq<char> {
    BPF_FS_ROOT@ + "/"@ + name
}

/// The path at which the table named `name` is published.
pub fn table_path(name: &str) -> (r: String)
    ensures
        r@ == table_path_spec(name@),
{
    let root = String::from_str(BPF_FS_ROOT);
    let dir = root.concat("/");
    dir.concat(name)
}

/// Two tables share a published path only if they share a name, so each
/// table has its own entry, and a later run's table of the same name lands
/// on the entry of the earlier one.
pub proof fn lemma_table_path_injective(a: Seq<char>, b: Seq<char>)
    ensures
        table_path_spec(a) == table_path_spec(b) <==> a == b,
{
    let p = BPF_FS_ROOT@ + "/"@;
    if table_path_spec(a) == table_path_spec(b) {
        assert(a == table_path_spec(a).subrange(p.len() as int, table_path_spec(a).len() as int));
        assert(b == table_path_spec(b).subrange(p.len() as int, table_path_spec(b).len() as int));
    }
}

} // verus!
