//! What holds of the view over any run of calls.

use vstd::prelude::*;
use crate::devices::DevicesViewModel;
use crate::handle::{DeviceWidget, FirmwareList, WidgetRef};
use crate::info::FirmwareInfoView;
use crate::list::ListBoxView;
use crate::row::RowView;
use crate::widgets::{ButtonView, LabelView, Page, ProgressBar, Stack};

verus! {

/// Adding rows leaves the list's section, generation and setup alone and
/// keeps the rows that were there; the rows that come behind them are the
/// rows for `infos`, in order, each with the header that its place calls
/// for.
pub proof fn lemma_with_rows(list: ListBoxView, infos: Seq<FirmwareInfoView>)
    ensures
        list.with_rows(infos).kind == list.kind,
        list.with_rows(infos).generation == list.generation,
        list.with_rows(infos).margin_bottom == list.margin_bottom,
        list.with_rows(infos).selectable == list.selectable,
        list.with_rows(infos).rows.len() == list.rows.len() + infos.len(),
        forall|i: int|
            0 <= i < list.rows.len() ==> #[trigger] list.with_rows(infos).rows[i] == list.rows[i],
        forall|k: int|
            0 <= k < infos.len() ==> #[trigger] list.with_rows(infos).rows[list.rows.len() + k]
                == RowView::for_info(infos[k]).with_header(list.rows.len() + k > 0),
    decreases infos.len(),
{
    if infos.len() > 0 {
        let next = list.with_row(infos.first());
        let rest = infos.drop_first();
        lemma_with_rows(next, rest);
        assert forall|k: int| 0 <= k < infos.len() implies #[trigger] list.with_rows(
            infos,
        ).rows[list.rows.len() + k] == RowView::for_info(infos[k]).with_header(
            list.rows.len() + k > 0,
        ) by {
            if k > 0 {
                assert(rest[k - 1] == infos[k]);
                assert(list.rows.len() + k == next.rows.len() + (k - 1));
            }
        }
    }
}

/// The button of every row that is added shows exactly when an update is on
/// offer for it, and its stack is on the button page.
pub proof fn lemma_added_rows_start_on_button(
    list: ListBoxView,
    infos: Seq<FirmwareInfoView>,
    k: int,
)
    requires
        0 <= k < infos.len(),
    ensures
        list.with_rows(infos).rows[list.rows.len() + k].button.visible == (infos[k].current
            != infos[k].latest),
        list.with_rows(infos).rows[list.rows.len() + k].stack.visible_child == Page::Button,
{
    lemma_with_rows(list, infos);
}

/// Adding rows to a list gives out one bundle of handles for each row, and
/// the bundle of the `k`th of them names the row at the `k`th place behind
/// the rows that were there.
pub proof fn lemma_widgets_for(list: ListBoxView, infos: Seq<FirmwareInfoView>)
    requires
        list.rows.len() + infos.len() <= usize::MAX,
    ensures
        list.widgets_for(infos).len() == infos.len(),
        forall|k: int|
            0 <= k < infos.len() ==> #[trigger] list.widgets_for(infos)[k] == DeviceWidget::at(
                list.kind,
                list.generation,
                (list.rows.len() + k) as usize,
            ),
    decreases infos.len(),
{
    if infos.len() > 0 {
        let next = list.with_row(infos.first());
        let rest = infos.drop_first();
        lemma_widgets_for(next, rest);
        assert forall|k: int| 0 <= k < infos.len() implies #[trigger] list.widgets_for(infos)[k]
            == DeviceWidget::at(list.kind, list.generation, (list.rows.len() + k) as usize) by {
            if k > 0 {
                assert(list.widgets_for(infos)[k] == next.widgets_for(rest)[k - 1]);
                assert(list.rows.len() + k == next.rows.len() + (k - 1));
            }
        }
    }
}

/// Adding N rows gives out N bundles of handles that name 4 N different
/// widgets: the four handles of a bundle differ from each other, and no two
/// bundles have a widget in common. Each bundle names a row that is in the
/// list afterwards and was not in it before.
pub proof fn lemma_added_widgets_distinct(list: ListBoxView, infos: Seq<FirmwareInfoView>)
    requires
        list.rows.len() + infos.len() <= usize::MAX,
    ensures
        list.widgets_for(infos).len() == infos.len(),
        forall|k: int|
            0 <= k < infos.len() ==> (#[trigger] list.widgets_for(infos)[k]).parts_distinct(),
        forall|j: int, k: int|
            0 <= j < infos.len() && 0 <= k < infos.len() && j != k ==> (#[trigger] list.widgets_for(
                infos,
            )[j]).disjoint(#[trigger] list.widgets_for(infos)[k]),
        forall|k: int|
            0 <= k < infos.len() ==> list.with_rows(infos).holds(
                #[trigger] list.widgets_for(infos)[k],
            ),
        forall|k: int| 0 <= k < infos.len() ==> !list.holds(#[trigger] list.widgets_for(infos)[k]),
{
    lemma_with_rows(list, infos);
    lemma_widgets_for(list, infos);
}

/// A handle that named a widget of the list before it was cleared names
/// none afterwards, however many rows are added then.
pub proof fn lemma_cleared_handles_stay_stale(
    list: ListBoxView,
    infos: Seq<FirmwareInfoView>,
    widget: WidgetRef,
)
    requires
        list.owns(widget),
    ensures
        !list.cleared().owns(widget),
        !list.cleared().with_rows(infos).owns(widget),
{
    lemma_with_rows(list.cleared(), infos);
}

/// Rows that are added to a list whose rows are separated leave it so: the
/// first row of the list has no header, every other row has a separator.
pub proof fn lemma_with_rows_separated(list: ListBoxView, infos: Seq<FirmwareInfoView>)
    requires
        list.separated(),
    ensures
        list.with_rows(infos).separated(),
        forall|i: int|
            0 <= i < list.with_rows(infos).rows.len() ==> ((#[trigger] list.with_rows(
                infos,
            ).rows[i]).header is Some <==> i > 0),
{
    lemma_with_rows(list, infos);
    let after = list.with_rows(infos);
    assert forall|i: int| 0 <= i < after.rows.len() implies (#[trigger] after.rows[i]).header
        == ListBoxView::header_at(i) by {
        if i >= list.rows.len() {
            let k = i - list.rows.len();
            assert(after.rows[list.rows.len() + k] == RowView::for_info(infos[k]).with_header(
                list.rows.len() + k > 0,
            ));
        } else {
            assert(after.rows[i] == list.rows[i]);
        }
    }
}

/// The view as it is made is well formed.
pub proof fn lemma_initial_wf()
    ensures
        DevicesViewModel::initial().wf(),
{
}

/// Adding a row to either list keeps the view well formed.
pub proof fn lemma_with_row_wf(view: DevicesViewModel, which: FirmwareList, info: FirmwareInfoView)
    requires
        view.wf(),
    ensures
        view.with_row(which, info).wf(),
{
}

/// Clearing keeps the view well formed, leaves both lists without rows and
/// leaves no handle that names anything.
pub proof fn lemma_cleared_wf(view: DevicesViewModel)
    requires
        view.wf(),
    ensures
        view.cleared().wf(),
        view.cleared().system_firmware.rows.len() == 0,
        view.cleared().device_firmware.rows.len() == 0,
        forall|widget: WidgetRef| !view.cleared().owns(widget),
{
}

/// Changing a widget through its handle keeps the view well formed, and
/// every handle names a widget of the view afterwards exactly if it did
/// before.
pub proof fn lemma_changes_keep_wf(
    view: DevicesViewModel,
    widget: WidgetRef,
    button: ButtonView,
    label: LabelView,
    progress: ProgressBar,
    stack: Stack,
)
    requires
        view.wf(),
        view.owns(widget),
    ensures
        view.with_button(widget, button).wf(),
        view.with_label(widget, label).wf(),
        view.with_progress(widget, progress).wf(),
        view.with_stack(widget, stack).wf(),
        forall|other: WidgetRef|
            view.owns(other) == #[trigger] view.with_button(widget, button).owns(other),
        forall|other: WidgetRef|
            view.owns(other) == #[trigger] view.with_label(widget, label).owns(other),
        forall|other: WidgetRef|
            view.owns(other) == #[trigger] view.with_progress(widget, progress).owns(other),
        forall|other: WidgetRef|
            view.owns(other) == #[trigger] view.with_stack(widget, stack).owns(other),
{
}

/// In a well-formed view separators stand above every row but the first of
/// each list.
pub proof fn lemma_separators(view: DevicesViewModel, which: FirmwareList, i: int)
    requires
        view.wf(),
        0 <= i < view.list(which).rows.len(),
    ensures
        view.list(which).rows[i].header is Some <==> i > 0,
{
}

} // verus!
