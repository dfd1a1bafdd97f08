//! A write to a control file, and what a sequence of writes leaves behind.

use vstd::prelude::*;

verus! {

/// One write to a control file of a cgroup node: the file's name within the
/// node's directory, and the text that replaces its content.
#[derive(Clone, Debug, PartialEq, Eq)]
pub struct Write {
    pub file: String,
    pub value: String,
}

/// The mathematical content of a [`Write`].
pub struct WriteView {
    pub file: Seq<char>,
    pub value: Seq<char>,
}

impl View for Write {
    type V = WriteView;

    open spec fn view(&self) -> WriteView {
        WriteView { file: self.file@, value: self.value@ }
    }
}

impl DeepView for Write {
    type V = WriteView;

    open spec fn deep_view(&self) -> WriteView {
        self@
    }
}

/// The content of the files in one directory, by file name.
pub type Files = Map<Seq<char>, Seq<char>>;

/// The directory after `writes` were made in order, each replacing the
/// content of its file.
pub open spec fn written(files: Files, writes: Seq<WriteView>) -> Files
    decreases writes.len(),
{
    if writes.len() == 0 {
        files
    } else {
        written(files, writes.drop_last()).insert(writes.last().file, writes.last().value)
    }
}

/// What the last of `writes` to `file` wrote, if any of them names it.
pub open spec fn last_written(writes: Seq<WriteView>, file: Seq<char>) -> Option<Seq<char>>
    decreases writes.len(),
{
    if writes.len() == 0 {
        None
    } else if writes.last().file == file {
        Some(writes.last().value)
    } else {
        last_written(writes.drop_last(), file)
    }
}

/// Whether one of `writes` names `file`.
pub open spec fn touches(writes: Seq<WriteView>, file: Seq<char>) -> bool {
    exists|i: int| 0 <= i < writes.len() && (#[trigger] writes[i]).file == file
}

/// A sequence of writes names a file exactly when it has a last write to it.
pub proof fn lemma_last_written_iff_touches(writes: Seq<WriteView>, file: Seq<char>)
    ensures
        last_written(writes, file) is Some <==> touches(writes, file),
    decreases writes.len(),
{
    if writes.len() > 0 {
        let front = writes.drop_last();
        lemma_last_written_iff_touches(front, file);
        if touches(front, file) {
            let i = choose|i: int| 0 <= i < front.len() && (#[trigger] front[i]).file == file;
            assert(writes[i].file == file);
        }
        if touches(writes, file) && writes.last().file != file {
            let i = choose|i: int| 0 <= i < writes.len() && (#[trigger] writes[i]).file == file;
            assert(front[i].file == file);
        }
        if writes.last().file == file {
            assert(writes[writes.len() - 1].file == file);
        }
    }
}

/// After a sequence of writes, a file that one of them names holds what the
/// last write to it wrote, and every other file is as it was: there if it
/// was there, with the content it had.
pub proof fn lemma_written_file(files: Files, writes: Seq<WriteView>, file: Seq<char>)
    ensures
        written(files, writes).dom().contains(file) <==> files.dom().contains(file) || touches(
            writes,
            file,
        ),
        touches(writes, file) ==> written(files, writes)[file] == last_written(
            writes,
            file,
        ).unwrap(),
        !touches(writes, file) && files.dom().contains(file) ==> written(files, writes)[file]
            == files[file],
    decreases writes.len(),
{
    lemma_last_written_iff_touches(writes, file);
    if writes.len() > 0 {
        lemma_written_file(files, writes.drop_last(), file);
        lemma_last_written_iff_touches(writes.drop_last(), file);
    }
}

/// Making the same writes a second time changes nothing: the files hold
/// what they held after the first time.
pub proof fn lemma_written_idempotent(files: Files, writes: Seq<WriteView>)
    ensures
        written(written(files, writes), writes) == written(files, writes),
{
    let once = written(files, writes);
    let twice = written(once, writes);
    assert forall|file: Seq<char>| #[trigger]
        twice.dom().contains(file) == once.dom().contains(file) && (once.dom().contains(file)
            ==> twice[file] == once[file]) by {
        lemma_written_file(files, writes, file);
        lemma_written_file(once, writes, file);
    }
    assert(twice =~= once);
}

} // verus!
