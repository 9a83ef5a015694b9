//! Alert rules as the dashboard system provisions them.

use vstd::prelude::*;

verus! {

/// One query fragment of a rule query. It takes part in matching only when
/// it carries an expression.
#[derive(Debug, Clone)]
pub struct AlertDataModel {
    pub expr: Option<String>,
}

/// One rule query of an alert: the datasource it runs against, if it names
/// one, and its query fragments.
#[derive(Debug, Clone)]
pub struct AlertData {
    pub datasource_uid: Option<String>,
    pub model: Vec<AlertDataModel>,
}

/// A provisioned alert rule with its rule queries, in the order of the
/// listing.
#[derive(Debug, Clone)]
pub struct Alert {
    pub id: usize,
    pub uid: String,
    pub title: String,
    pub data: Vec<AlertData>,
}

/// What an [`AlertDataModel`] holds.
pub struct AlertDataModelView {
    pub expr: Option<Seq<char>>,
}

/// What an [`AlertData`] holds.
pub struct AlertDataView {
    pub datasource_uid: Option<Seq<char>>,
    pub model: Seq<AlertDataModelView>,
}

/// What an [`Alert`] holds.
pub struct AlertView {
    pub id: usize,
    pub uid: Seq<char>,
    pub title: Seq<char>,
    pub data: Seq<AlertDataView>,
}

impl View for AlertDataModel {
    type V = AlertDataModelView;

    open spec fn view(&self) -> AlertDataModelView {
        AlertDataModelView { expr: self.expr.deep_view() }
    }
}

impl DeepView for AlertDataModel {
    type V = AlertDataModelView;

    open spec fn deep_view(&self) -> AlertDataModelView {
        self@
    }
}

impl View for AlertData {
    type V = AlertDataView;

    open spec fn view(&self) -> AlertDataView {
        AlertDataView {
            datasource_uid: self.datasource_uid.deep_view(),
            model: self.model.deep_view(),
        }
    }
}

impl DeepView for AlertData {
    type V = AlertDataView;

    open spec fn deep_view(&self) -> AlertDataView {
        self@
    }
}

impl View for Alert {
    type V = AlertView;

    open spec fn view(&self) -> AlertView {
        AlertView {
            id: self.id,
            uid: self.uid@,
            title: self.title@,
            data: self.data.deep_view(),
        }
    }
}

impl DeepView for Alert {
    type V = AlertView;

    open spec fn deep_view(&self) -> AlertView {
        self@
    }
}

impl AlertDataModelView {
    /// The fragment carries an expression.
    pub open spec fn has_expression(self) -> bool {
        self.expr is Some
    }
}

impl AlertDataView {
    /// The fragments of this rule query that carry an expression, in order.
    pub open spec fn retained_models(self) -> Seq<AlertDataModelView> {
        self.model.filter(|m: AlertDataModelView| m.has_expression())
    }

    /// This rule query without the fragments that lack an expression.
    pub open spec fn pruned(self) -> AlertDataView {
        AlertDataView { datasource_uid: self.datasource_uid, model: self.retained_models() }
    }

    /// Some fragment of this rule query carries an expression.
    pub open spec fn has_expression(self) -> bool {
        exists|k: int| 0 <= k < self.model.len() && (#[trigger] self.model[k]).has_expression()
    }

    /// Every fragment carries an expression, and there is at least one.
    pub open spec fn is_working(self) -> bool {
        &&& self.model.len() > 0
        &&& forall|k: int| 0 <= k < self.model.len() ==> (#[trigger] self.model[k]).has_expression()
    }
}

impl AlertView {
    /// The rule queries of this alert that keep a fragment once those
    /// without an expression are gone, each pruned, in order.
    pub open spec fn retained_data(self) -> Seq<AlertDataView> {
        self.data.map_values(|d: AlertDataView| d.pruned()).filter(
            |d: AlertDataView| d.model.len() > 0,
        )
    }

    /// This alert with only its retained rule queries.
    pub open spec fn pruned(self) -> AlertView {
        AlertView { id: self.id, uid: self.uid, title: self.title, data: self.retained_data() }
    }

    /// Some rule query of this alert carries an expression.
    pub open spec fn has_expression(self) -> bool {
        exists|j: int| 0 <= j < self.data.len() && (#[trigger] self.data[j]).has_expression()
    }

    /// The alert has a rule query, and each of its rule queries is working.
    pub open spec fn is_working(self) -> bool {
        &&& self.data.len() > 0
        &&& forall|j: int| 0 <= j < self.data.len() ==> (#[trigger] self.data[j]).is_working()
    }
}

/// The working alert set of a listing: each alert pruned, and those left
/// without any rule query dropped, in the order of the listing.
pub open spec fn working_alerts(alerts: Seq<AlertView>) -> Seq<AlertView> {
    alerts.map_values(|a: AlertView| a.pruned()).filter(|a: AlertView| a.data.len() > 0)
}

/// A pruned rule query keeps a fragment exactly when some fragment of the
/// rule query carries an expression, and then every fragment that it keeps
/// carries one.
pub proof fn lemma_pruned_query(query: AlertDataView)
    ensures
        query.pruned().model.len() > 0 <==> query.has_expression(),
        query.pruned().model.len() > 0 ==> query.pruned().is_working(),
        query.pruned().datasource_uid == query.datasource_uid,
{
    let carries = |m: AlertDataModelView| m.has_expression();
    let kept = query.model.filter(carries);
    if kept.len() > 0 {
        query.model.lemma_filter_pred(carries, 0);
        assert(kept.contains(kept[0]));
        query.model.lemma_filter_contains_rev(carries, kept[0]);
    }
    if query.has_expression() {
        let k = choose|k: int|
            0 <= k < query.model.len() && (#[trigger] query.model[k]).has_expression();
        query.model.lemma_filter_contains(carries, k);
    }
    assert forall|k: int| 0 <= k < kept.len() implies (#[trigger] kept[k]).has_expression() by {
        query.model.lemma_filter_pred(carries, k);
    }
}

/// A pruned alert keeps a rule query exactly when some rule query of the
/// alert carries an expression, and then the pruned alert is working.
pub proof fn lemma_pruned_alert(alert: AlertView)
    ensures
        alert.pruned().data.len() > 0 <==> alert.has_expression(),
        alert.pruned().data.len() > 0 ==> alert.pruned().is_working(),
{
    let prune = |d: AlertDataView| d.pruned();
    let keeps = |d: AlertDataView| d.model.len() > 0;
    let pruned = alert.data.map_values(prune);
    let kept = pruned.filter(keeps);
    if kept.len() > 0 {
        pruned.lemma_filter_pred(keeps, 0);
        assert(kept.contains(kept[0]));
        pruned.lemma_filter_contains_rev(keeps, kept[0]);
        let j = choose|j: int| 0 <= j < pruned.len() && pruned[j] == kept[0];
        lemma_pruned_query(alert.data[j]);
        assert(alert.data[j].has_expression());
    }
    if alert.has_expression() {
        let j = choose|j: int|
            0 <= j < alert.data.len() && (#[trigger] alert.data[j]).has_expression();
        lemma_pruned_query(alert.data[j]);
        pruned.lemma_filter_contains(keeps, j);
    }
    assert forall|j: int| 0 <= j < kept.len() implies (#[trigger] kept[j]).is_working() by {
        pruned.lemma_filter_pred(keeps, j);
        assert(kept.contains(kept[j]));
        pruned.lemma_filter_contains_rev(keeps, kept[j]);
        let origin = choose|o: int| 0 <= o < pruned.len() && pruned[o] == kept[j];
        lemma_pruned_query(alert.data[origin]);
    }
}

/// Every alert of a working alert set has a rule query, each of its rule
/// queries has a fragment, and each fragment carries an expression: no
/// alert is left as an empty shell.
pub proof fn lemma_working_alerts_are_working(alerts: Seq<AlertView>)
    ensures
        forall|i: int|
            0 <= i < working_alerts(alerts).len() ==> (#[trigger] working_alerts(
                alerts,
            )[i]).is_working(),
{
    let working = working_alerts(alerts);
    assert forall|i: int| 0 <= i < working.len() implies (#[trigger] working[i]).is_working() by {
        lemma_working_alert_origin(alerts, i);
        let j = choose|j: int|
            0 <= j < alerts.len() && (#[trigger] alerts[j]).has_expression() && working[i]
                == alerts[j].pruned();
        lemma_pruned_alert(alerts[j]);
    }
}

/// Every alert of a working alert set is the pruned form of a listed alert
/// of which some rule query carries an expression.
pub proof fn lemma_working_alert_origin(alerts: Seq<AlertView>, i: int)
    requires
        0 <= i < working_alerts(alerts).len(),
    ensures
        exists|j: int|
            0 <= j < alerts.len() && (#[trigger] alerts[j]).has_expression() && working_alerts(
                alerts,
            )[i] == alerts[j].pruned(),
{
    let prune = |a: AlertView| a.pruned();
    let keeps = |a: AlertView| a.data.len() > 0;
    let pruned = alerts.map_values(prune);
    let working = pruned.filter(keeps);
    pruned.lemma_filter_pred(keeps, i);
    assert(working.contains(working[i]));
    pruned.lemma_filter_contains_rev(keeps, working[i]);
    let j = choose|j: int| 0 <= j < pruned.len() && pruned[j] == working[i];
    lemma_pruned_alert(alerts[j]);
    assert(alerts[j].has_expression() && working[i] == alerts[j].pruned());
}

/// A listed alert of which some rule query carries an expression is in the
/// working alert set, pruned.
pub proof fn lemma_alert_with_expression_is_kept(alerts: Seq<AlertView>, j: int)
    requires
        0 <= j < alerts.len(),
        alerts[j].has_expression(),
    ensures
        working_alerts(alerts).contains(alerts[j].pruned()),
{
    let prune = |a: AlertView| a.pruned();
    let keeps = |a: AlertView| a.data.len() > 0;
    let pruned = alerts.map_values(prune);
    lemma_pruned_alert(alerts[j]);
    pruned.lemma_filter_contains(keeps, j);
}

/// A listed alert of which no rule query carries an expression is excluded
/// from the working alert set: not even its pruned form, which has no rule
/// query left, is in it.
pub proof fn lemma_alert_without_expression_is_dropped(alerts: Seq<AlertView>, j: int)
    requires
        0 <= j < alerts.len(),
        !alerts[j].has_expression(),
    ensures
        !working_alerts(alerts).contains(alerts[j].pruned()),
        alerts[j].pruned().data.len() == 0,
{
    lemma_pruned_alert(alerts[j]);
    let working = working_alerts(alerts);
    if working.contains(alerts[j].pruned()) {
        let i = choose|i: int| 0 <= i < working.len() && working[i] == alerts[j].pruned();
        lemma_working_alerts_are_working(alerts);
        assert(working[i].is_working());
    }
}

} // verus!
