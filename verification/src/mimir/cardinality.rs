//! The answer of the metrics backend to a question about cardinality.

use vstd::prelude::*;

verus! {

/// One label value with the number of series that carry it.
#[derive(Debug, Clone)]
pub struct Cardinality {
    pub label_value: String,
    pub series_count: usize,
}

/// The cardinality of the values of one label, in the backend's ranking.
#[derive(Debug, Clone)]
pub struct Label {
    pub cardinality: Vec<Cardinality>,
}

/// The whole answer: one entry for each label that was asked about.
#[derive(Debug, Clone)]
pub struct Response {
    pub labels: Vec<Label>,
}

/// What a [`Cardinality`] holds.
pub struct CardinalityView {
    pub label_value: Seq<char>,
    pub series_count: usize,
}

/// What a [`Label`] holds.
pub struct LabelView {
    pub cardinality: Seq<CardinalityView>,
}

/// What a [`Response`] holds.
pub struct ResponseView {
    pub labels: Seq<LabelView>,
}

impl View for Cardinality {
    type V = CardinalityView;

    open spec fn view(&self) -> CardinalityView {
        CardinalityView { label_value: self.label_value@, series_count: self.series_count }
    }
}

impl DeepView for Cardinality {
    type V = CardinalityView;

    open spec fn deep_view(&self) -> CardinalityView {
        self@
    }
}

impl View for Label {
    type V = LabelView;

    open spec fn view(&self) -> LabelView {
        LabelView { cardinality: self.cardinality.deep_view() }
    }
}

impl DeepView for Label {
    type V = LabelView;

    open spec fn deep_view(&self) -> LabelView {
        self@
    }
}

impl View for Response {
    type V = ResponseView;

    open spec fn view(&self) -> ResponseView {
        ResponseView { labels: self.labels.deep_view() }
    }
}

impl DeepView for Response {
    type V = ResponseView;

    open spec fn deep_view(&self) -> ResponseView {
        self@
    }
}

/// The label values of `entries`, in order.
pub open spec fn values_of(entries: Seq<CardinalityView>) -> Seq<Seq<char>> {
    Seq::new(entries.len(), |i: int| entries[i].label_value)
}

/// The label values of all `labels`, label after label, each in the
/// backend's ranking.
pub open spec fn label_values(labels: Seq<LabelView>) -> Seq<Seq<char>>
    decreases labels.len(),
{
    if labels.len() == 0 {
        Seq::empty()
    } else {
        label_values(labels.drop_last()) + values_of(labels.last().cardinality)
    }
}

impl Response {
    /// The label values of the answer, label after label, each in the
    /// backend's ranking.
    pub fn into_label_values(self) -> (values: Vec<String>)
        ensures
            values.deep_view() == label_values(self@.labels),
    {
        let mut values: Vec<String> = Vec::new();
        let mut i: usize = 0;
        assert(values.deep_view() =~= Seq::<Seq<char>>::empty());
        while i < self.labels.len()
            invariant
                i <= self.labels.len(),
                values.deep_view() == label_values(self@.labels.take(i as int)),
            decreases self.labels.len() - i,
        {
            let entries = &self.labels[i].cardinality;
            let ghost before = values.deep_view();
            proof {
                let upto = self@.labels.take(i + 1);
                assert(upto.drop_last() =~= self@.labels.take(i as int));
                assert(upto.last() == self.labels[i as int]@);
            }
            let mut k: usize = 0;
            while k < entries.len()
                invariant
                    k <= entries.len(),
                    values.deep_view() == before + values_of(entries.deep_view()).take(k as int),
                decreases entries.len() - k,
            {
                let ghost so_far = values.deep_view();
                values.push(entries[k].label_value.clone());
                assert(values.deep_view() =~= so_far.push(entries[k as int].label_value@));
                assert(values_of(entries.deep_view()).take(k + 1) =~= values_of(
                    entries.deep_view(),
                ).take(k as int).push(entries[k as int].label_value@));
                k += 1;
            }
            assert(values_of(entries.deep_view()).take(entries.len() as int) =~= values_of(
                entries.deep_view(),
            ));
            i += 1;
        }
        assert(self@.labels.take(self.labels.len() as int) =~= self@.labels);
        values
    }
}

} // verus!
