use vstd::prelude::*;

verus! {

/// Why an action on the selected node cannot go ahead.
#[derive(Clone, Copy, Debug, PartialEq, Eq, Structural)]
pub enum SelectionError {
    /// No row is selected.
    NoSelection,
    /// The selected row is past the end of the list.
    NotFound,
}

impl SelectionError {
    /// The message shown to the user.
    pub fn message(&self) -> (r: &'static str) {
        match self {
            SelectionError::NoSelection => "No node selected.",
            SelectionError::NotFound => "Selected node not found.",
        }
    }
}

/// What selecting row `sel` of a list of `len` nodes gives.
pub open spec fn selection_result(sel: Option<usize>, len: nat) -> Result<usize, SelectionError> {
    match sel {
        None => Err(SelectionError::NoSelection),
        Some(i) => if i < len {
            Ok(i)
        } else {
            Err(SelectionError::NotFound)
        },
    }
}

/// The index of the selected node, where it is one of the list.
pub fn selected_index<N>(nodes: &Vec<N>, sel: Option<usize>) -> (r: Result<usize, SelectionError>)
    ensures
        r == selection_result(sel, nodes@.len()),
{
    match sel {
        None => Err(SelectionError::NoSelection),
        Some(i) => if i < nodes.len() {
            Ok(i)
        } else {
            Err(SelectionError::NotFound)
        },
    }
}

/// The selected node.
pub fn selected_node<N>(nodes: &Vec<N>, sel: Option<usize>) -> (r: Result<&N, SelectionError>)
    ensures
        match selection_result(sel, nodes@.len()) {
            Ok(i) => r == Ok::<&N, SelectionError>(&nodes@[i as int]),
            Err(e) => r == Err::<&N, SelectionError>(e),
        },
{
    match selected_index(nodes, sel) {
        Ok(i) => Ok(&nodes[i]),
        Err(e) => Err(e),
    }
}

/// Deletes the selected node and returns it; the selection is cleared.
/// Where nothing valid is selected, the list and the selection stay as
/// they are.
pub fn delete_selected<N>(nodes: &mut Vec<N>, sel: &mut Option<usize>) -> (r: Result<
    N,
    SelectionError,
>)
    ensures
        match selection_result(*old(sel), old(nodes)@.len()) {
            Ok(i) => r == Ok::<N, SelectionError>(old(nodes)@[i as int]) && final(nodes)@
                == old(nodes)@.remove(i as int) && *final(sel) == None::<usize>,
            Err(e) => r == Err::<N, SelectionError>(e) && final(nodes)@ == old(nodes)@
                && *final(sel) == *old(sel),
        },
{
    match selected_index(nodes, *sel) {
        Ok(i) => {
            let n = nodes.remove(i);
            *sel = None;
            Ok(n)
        },
        Err(e) => Err(e),
    }
}

/// The list after a dialog for row `row` (or for a new node, where `row` is
/// `None`) handed back `node`.
pub open spec fn with_result<N>(nodes: Seq<N>, row: Option<usize>, node: N) -> Seq<N> {
    match row {
        Some(i) => nodes.update(i as int, node),
        None => nodes.push(node),
    }
}

/// Applies the result of a node dialog: an edit replaces its row, a new node
/// is appended.
pub fn apply_dialog_result<N>(nodes: &mut Vec<N>, row: Option<usize>, node: N)
    requires
        row matches Some(i) ==> i < old(nodes)@.len(),
    ensures
        final(nodes)@ == with_result(old(nodes)@, row, node),
{
    match row {
        Some(i) => {
            nodes.set(i, node);
        },
        None => {
            nodes.push(node);
        },
    }
}

/// An edit of row `i` replaces element `i` alone and keeps the length; a new
/// node adds one element at the end and keeps all others.
pub proof fn lemma_dialog_result_scope<N>(nodes: Seq<N>, row: Option<usize>, node: N)
    requires
        row matches Some(i) ==> i < nodes.len(),
    ensures
        row matches Some(i) ==> {
            &&& with_result(nodes, row, node).len() == nodes.len()
            &&& with_result(nodes, row, node)[i as int] == node
            &&& forall|j: int|
                0 <= j < nodes.len() && j != i ==> #[trigger] with_result(nodes, row, node)[j]
                    == nodes[j]
        },
        row is None ==> {
            &&& with_result(nodes, row, node).len() == nodes.len() + 1
            &&& with_result(nodes, row, node)[nodes.len() as int] == node
            &&& forall|j: int|
                0 <= j < nodes.len() ==> #[trigger] with_result(nodes, row, node)[j] == nodes[j]
        },
{
}

/// What polling a dialog's result channel once gave.
pub enum DialogPoll<N> {
    /// Nothing yet: the dialog is still open.
    Pending,
    /// The channel closed without a value.
    Closed,
    /// The dialog handed back a node, or `None` where the user cancelled.
    Ready(Option<N>),
}

/// Whether a dialog stays outstanding after a poll.
pub open spec fn stays_pending<N>(poll: DialogPoll<N>) -> bool {
    poll is Pending
}

/// The list after a poll of a dialog for `row`.
pub open spec fn after_poll<N>(nodes: Seq<N>, row: Option<usize>, poll: DialogPoll<N>) -> Seq<N> {
    match poll {
        DialogPoll::Ready(Some(n)) => with_result(nodes, row, n),
        _ => nodes,
    }
}

/// Handles one poll of a dialog's channel: a ready node is applied, and the
/// result says whether the dialog is still to be polled.
pub fn reconcile_poll<N>(nodes: &mut Vec<N>, row: Option<usize>, poll: DialogPoll<N>) -> (keep: bool)
    requires
        row matches Some(i) ==> i < old(nodes)@.len(),
    ensures
        keep == stays_pending(poll),
        final(nodes)@ == after_poll(old(nodes)@, row, poll),
{
    match poll {
        DialogPoll::Pending => true,
        DialogPoll::Closed => false,
        DialogPoll::Ready(None) => false,
        DialogPoll::Ready(Some(n)) => {
            apply_dialog_result(nodes, row, n);
            false
        },
    }
}

} // verus!
