use vstd::prelude::*;
use crate::scene::{Widget, shows_text, standard_placement, text_widget};
use crate::service::{SceneError, SceneModel};

verus! {

/// The state after `n` slides are added in a row to `m`.
pub open spec fn after_adds(m: SceneModel, n: nat) -> SceneModel
    decreases n,
{
    if n == 0 {
        m
    } else {
        after_adds(m, (n - 1) as nat).with_new_slide()
    }
}

/// The id that the `k`-th of a run of slide additions (from 0) returns.
pub open spec fn id_of_add(m: SceneModel, k: nat) -> nat {
    after_adds(m, k).last_id() + 1
}

/// The state after the texts are appended in order to slide `id`.
pub open spec fn after_appends(m: SceneModel, id: u64, texts: Seq<String>) -> SceneModel
    decreases texts.len(),
{
    if texts.len() == 0 {
        m
    } else {
        after_appends(m, id, texts.drop_last()).with_widget(
            id,
            text_widget(id, texts.last(), standard_placement()),
        )
    }
}

proof fn lemma_after_adds_len(m: SceneModel, n: nat)
    ensures
        after_adds(m, n).last_id() == m.last_id() + n,
        after_adds(m, n).current == m.current,
    decreases n,
{
    if n > 0 {
        lemma_after_adds_len(m, (n - 1) as nat);
    }
}

/// Slide ids are fresh and increasing: in any run of slide additions, each
/// returned id is larger than every id returned before it and than every id
/// already issued, and names a slide afterwards. Showing slides or adding
/// widgets between the additions issues no id, so this holds of any
/// serialisation of concurrent calls.
pub proof fn lemma_added_ids_increase(m: SceneModel, i: nat, j: nat)
    requires
        i < j,
    ensures
        id_of_add(m, i) < id_of_add(m, j),
        forall|k: u64| #[trigger] after_adds(m, i).has_slide(k) ==> k < id_of_add(m, i),
        forall|k: u64| #[trigger] m.has_slide(k) ==> k < id_of_add(m, i),
        after_adds(m, i + 1).last_id() == id_of_add(m, i),
{
    lemma_after_adds_len(m, i);
    lemma_after_adds_len(m, j);
    lemma_after_adds_len(m, i + 1);
}

/// Showing a slide succeeds exactly for the ids issued so far, and an issued
/// id stays valid through every later operation, as nothing removes slides.
pub proof fn lemma_show_succeeds_iff_issued(m: SceneModel, id: u64, k: u64, w: Widget)
    ensures
        m.lookup(id) is Ok <==> 1 <= id <= m.last_id(),
        m.has_slide(id) ==> m.with_new_slide().has_slide(id),
        m.has_slide(id) ==> m.with_shown(k).has_slide(id),
        m.has_slide(id) ==> m.with_widget(k, w).has_slide(id),
        m.last_id() < u64::MAX ==> m.with_new_slide().lookup((m.last_id() + 1) as u64) is Ok,
{
}

/// Adding a text widget to a slide that shows no such text and then showing
/// that slide leaves the shown slide with exactly one widget of that text,
/// its last one.
pub proof fn lemma_added_text_is_shown(m: SceneModel, id: u64, t: String)
    requires
        m.wf(),
        m.has_slide(id),
        forall|i: int| 0 <= i < m.widgets(id).len() ==> !shows_text(#[trigger] m.widgets(id)[i], t@),
    ensures
        ({
            let s = m.with_widget(id, text_widget(id, t, standard_placement())).with_shown(id);
            let ws = s.widgets(id);
            &&& s.current == Some(id)
            &&& shows_text(ws.last(), t@)
            &&& forall|i: int| 0 <= i < ws.len() && shows_text(#[trigger] ws[i], t@) ==> i == ws.len() - 1
        }),
{
    let s = m.with_widget(id, text_widget(id, t, standard_placement())).with_shown(id);
    let ws = s.widgets(id);
    assert(ws == m.widgets(id).push(text_widget(id, t, standard_placement())));
    assert forall|i: int| 0 <= i < ws.len() && shows_text(#[trigger] ws[i], t@) implies i == ws.len() - 1 by {
        if i < ws.len() - 1 {
            assert(ws[i] == m.widgets(id)[i]);
        }
    }
}

/// Appending any number of widgets to one slide, in any order, grows it by
/// exactly that number, keeps them in the order they came, and touches no
/// other slide and not the shown one.
pub proof fn lemma_appends_lose_nothing(m: SceneModel, id: u64, texts: Seq<String>, other: u64)
    requires
        m.has_slide(id),
    ensures
        after_appends(m, id, texts).last_id() == m.last_id(),
        after_appends(m, id, texts).current == m.current,
        after_appends(m, id, texts).widgets(id).len() == m.widgets(id).len() + texts.len(),
        after_appends(m, id, texts).widgets(id) == m.widgets(id) + texts.map_values(
            |t: String| text_widget(id, t, standard_placement()),
        ),
        m.has_slide(other) && other != id ==> after_appends(m, id, texts).widgets(other) == m.widgets(other),
    decreases texts.len(),
{
    if texts.len() > 0 {
        lemma_appends_lose_nothing(m, id, texts.drop_last(), other);
        let f = |t: String| text_widget(id, t, standard_placement());
        assert(texts.map_values(f) =~= texts.drop_last().map_values(f).push(f(texts.last())));
        assert(m.widgets(id) + texts.map_values(f) =~= (m.widgets(id) + texts.drop_last().map_values(f)).push(f(texts.last())));
    } else {
        assert(m.widgets(id) + texts.map_values(|t: String| text_widget(id, t, standard_placement())) =~= m.widgets(id));
    }
}

/// Showing an id that was never issued (0, or any id past the last one)
/// fails with `NotFound` and leaves the scene, the shown slide included, as it was.
pub proof fn lemma_show_unknown_is_rejected(m: SceneModel, id: u64)
    requires
        id == 0 || id > m.last_id(),
    ensures
        m.lookup(id) == Err::<(), SceneError>(SceneError::NotFound { slide_id: id }),
        m.with_shown(id) == m,
{
}

/// Adding a widget to an unknown slide fails with `NotFound` and changes no
/// slide.
pub proof fn lemma_add_widget_unknown_is_rejected(m: SceneModel, id: u64, w: Widget)
    requires
        !m.has_slide(id),
    ensures
        m.lookup(id) == Err::<(), SceneError>(SceneError::NotFound { slide_id: id }),
        m.with_widget(id, w) == m,
{
}

} // verus!
