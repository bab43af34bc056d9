//! The view pipeline: named post-processors over a finished record set.
//!
//! A view processor publishes which fields it needs, decides per record
//! whether it belongs in the output (`should_include_record`), and shapes the
//! included records into its output value (`process_records`). Filtering and
//! formatting are deliberately separate, so a caller can ask "would this
//! record survive the view" without producing output. Views are pure: no
//! network access, no mutation of the input.

use vstd::prelude::*;

use crate::fields::lookup;
use crate::models::Record;
use crate::models::RecordView;
use crate::models::records_view;
use crate::value::FieldValue;
use crate::value::ValueView;
use crate::views::clio::ClioView;
use crate::views::clio::clio_entries;
use crate::views::clio::clio_filtered;
use crate::views::clio::clio_includes;

pub mod clio;

verus! {

/// A failure of view processing.
#[derive(Debug, PartialEq)]
pub enum ViewError {
    /// A required field was absent (or null) on a record.
    MissingRequiredField { field_name: String, record_id: String },
    /// Output serialization failed.
    SerializationError(String),
    /// No view of the requested name is registered; carries the names that
    /// are.
    UnknownView { name: String, available: Vec<String> },
    /// Any other processing failure.
    ProcessingError(String),
}

/// The mathematical shape of a view-processing failure.
pub enum ViewErrorView {
    MissingRequiredField { field_name: Seq<char>, record_id: Seq<char> },
    SerializationError(Seq<char>),
    UnknownView { name: Seq<char>, available: Seq<Seq<char>> },
    ProcessingError(Seq<char>),
}

impl View for ViewError {
    type V = ViewErrorView;

    open spec fn view(&self) -> ViewErrorView {
        match self {
            ViewError::MissingRequiredField { field_name, record_id } => (
            ViewErrorView::MissingRequiredField {
                field_name: field_name@,
                record_id: record_id@,
            }),
            ViewError::SerializationError(m) => ViewErrorView::SerializationError(m@),
            ViewError::UnknownView { name, available } => ViewErrorView::UnknownView {
                name: name@,
                available: crate::request::strings_view(available@),
            },
            ViewError::ProcessingError(m) => ViewErrorView::ProcessingError(m@),
        }
    }
}

/// A named post-processor over a finished record set.
pub trait ViewProcessor {
    /// The processor's name, for lookup.
    spec fn spec_name(&self) -> Seq<char>;

    /// What the processor says about itself.
    spec fn spec_description(&self) -> Seq<char>;

    /// Whether a record belongs in this view's output.
    spec fn spec_includes(&self, r: RecordView) -> bool;

    /// What processing a record sequence yields.
    spec fn spec_process(&self, rs: Seq<RecordView>) -> Result<ValueView, ViewErrorView>;

    /// The names of the fields the processor requires.
    spec fn spec_required_fields(&self) -> Seq<Seq<char>>;

    /// The names of the fields the processor reads when present.
    spec fn spec_optional_fields(&self) -> Seq<Seq<char>>;

    /// The processor's name.
    fn name(&self) -> (r: &'static str)
        ensures
            r@ == self.spec_name(),
    ;

    /// A description of what the processor does.
    fn description(&self) -> (r: &'static str)
        ensures
            r@ == self.spec_description(),
    ;

    /// The fields the processor requires on included records.
    fn required_fields(&self) -> (r: Vec<&'static str>)
        ensures
            Seq::new(r@.len(), |i: int| r@[i]@) == self.spec_required_fields(),
    ;

    /// The fields the processor reads when present, degrading to an empty
    /// projection when absent.
    fn optional_fields(&self) -> (r: Vec<&'static str>)
        ensures
            Seq::new(r@.len(), |i: int| r@[i]@) == self.spec_optional_fields(),
    ;

    /// Whether `record` belongs in the output.
    fn should_include_record(&self, record: &Record) -> (r: bool)
        ensures
            r == self.spec_includes(record@),
    ;

    /// Shape `records` into the view's output.
    fn process_records(&self, records: Vec<Record>) -> (r: Result<FieldValue, ViewError>)
        ensures
            match r {
                Ok(v) => self.spec_process(records_view(records@)) == Ok::<
                    ValueView,
                    ViewErrorView,
                >(v@),
                Err(e) => self.spec_process(records_view(records@)) == Err::<
                    ValueView,
                    ViewErrorView,
                >(e@),
            },
    ;
}

/// One registered view.
#[derive(Debug)]
pub enum ViewKind {
    /// The law-practice matter extraction view.
    Clio(ClioView),
}

/// The name a registered view answers to.
pub open spec fn kind_name(k: ViewKind) -> Seq<char> {
    match k {
        ViewKind::Clio(v) => v.spec_name(),
    }
}

/// What a registered view says about itself.
pub open spec fn kind_description(k: ViewKind) -> Seq<char> {
    match k {
        ViewKind::Clio(v) => v.spec_description(),
    }
}

/// Whether a registered view includes a record.
pub open spec fn kind_includes(k: ViewKind, r: RecordView) -> bool {
    match k {
        ViewKind::Clio(v) => v.spec_includes(r),
    }
}

/// What a registered view yields on a record sequence.
pub open spec fn kind_process(k: ViewKind, rs: Seq<RecordView>) -> Result<
    ValueView,
    ViewErrorView,
> {
    match k {
        ViewKind::Clio(v) => v.spec_process(rs),
    }
}

impl ViewKind {
    /// The view's name.
    pub fn name(&self) -> (r: &'static str)
        ensures
            r@ == kind_name(*self),
    {
        match self {
            ViewKind::Clio(v) => v.name(),
        }
    }

    /// The view's description.
    pub fn description(&self) -> (r: &'static str)
        ensures
            r@ == kind_description(*self),
    {
        match self {
            ViewKind::Clio(v) => v.description(),
        }
    }

    /// Whether `record` belongs in the view's output.
    pub fn should_include_record(&self, record: &Record) -> (r: bool)
        ensures
            r == kind_includes(*self, record@),
    {
        match self {
            ViewKind::Clio(v) => v.should_include_record(record),
        }
    }

    /// Shape `records` into the view's output.
    pub fn process_records(&self, records: Vec<Record>) -> (r: Result<FieldValue, ViewError>)
        ensures
            match r {
                Ok(v) => kind_process(*self, records_view(records@)) == Ok::<
                    ValueView,
                    ViewErrorView,
                >(v@),
                Err(e) => kind_process(*self, records_view(records@)) == Err::<
                    ValueView,
                    ViewErrorView,
                >(e@),
            },
    {
        match self {
            ViewKind::Clio(v) => v.process_records(records),
        }
    }
}

/// A registry of views, looked up by name.
#[derive(Debug)]
pub struct ViewRegistry {
    /// The registered views, in registration order.
    pub views: Vec<ViewKind>,
}

impl ViewRegistry {
    /// A registry holding every view this library ships: the law-practice
    /// matter view.
    pub fn new() -> (r: ViewRegistry)
        ensures
            r.views@.len() == 1,
            r.views@[0] == ViewKind::Clio(ClioView),
    {
        let mut views: Vec<ViewKind> = Vec::new();
        views.push(ViewKind::Clio(ClioView::new()));
        ViewRegistry { views }
    }

    /// Register one more view.
    pub fn register(&mut self, view: ViewKind)
        ensures
            final(self).views@ == old(self).views@.push(view),
    {
        self.views.push(view);
    }

    /// The first registered view of the given name, if any.
    pub fn get_view(&self, name: &str) -> (r: Option<&ViewKind>)
        ensures
            match r {
                Some(v) => exists|k: int|
                    0 <= k < self.views@.len() && *v == self.views@[k] && kind_name(self.views@[k])
                        == name@,
                None => forall|k: int|
                    0 <= k < self.views@.len() ==> kind_name(#[trigger] self.views@[k]) != name@,
            },
    {
        let n = self.views.len();
        let mut i: usize = 0;
        while i < n
            invariant
                n == self.views@.len(),
                i <= n,
                forall|k: int| 0 <= k < i as int ==> kind_name(#[trigger] self.views@[k]) != name@,
            decreases n - i,
        {
            if crate::value::str_eq(self.views[i].name(), name) {
                return Some(&self.views[i]);
            }
            i = i + 1;
        }
        None
    }

    /// Every registered view's name and description, in order.
    pub fn list_views(&self) -> (r: Vec<(&'static str, &'static str)>)
        ensures
            r@.len() == self.views@.len(),
            forall|k: int| 0 <= k < r@.len() ==> (#[trigger] r@[k]).0@ == kind_name(self.views@[k])
                && r@[k].1@ == kind_description(self.views@[k]),
    {
        let n = self.views.len();
        let mut out: Vec<(&'static str, &'static str)> = Vec::new();
        let mut i: usize = 0;
        while i < n
            invariant
                n == self.views@.len(),
                i <= n,
                out@.len() == i as int,
                forall|k: int| 0 <= k < i as int ==> (#[trigger] out@[k]).0@ == kind_name(
                    self.views@[k],
                ) && out@[k].1@ == kind_description(self.views@[k]),
            decreases n - i,
        {
            out.push((self.views[i].name(), self.views[i].description()));
            i = i + 1;
        }
        out
    }
}

impl Default for ViewRegistry {
    /// The registry with every shipped view.
    fn default() -> (r: ViewRegistry)
        ensures
            r.views@.len() == 1,
            r.views@[0] == ViewKind::Clio(ClioView),
    {
        ViewRegistry::new()
    }
}

/// Extract one field's value from a record. A present, non-null value comes
/// back as a copy; an absent or null one degrades to nothing — unless the
/// field is `required`, which makes absence an error naming the field and
/// the record.
pub fn extract_field_value(record: &Record, field_name: &str, required: bool) -> (r: Result<
    Option<FieldValue>,
    ViewError,
>)
    ensures
        match r {
            Ok(Some(v)) => lookup(record@.fields, field_name@) == Some(v@) && v@
                != ValueView::Null,
            Ok(None) => !required && (lookup(record@.fields, field_name@) is None || lookup(
                record@.fields,
                field_name@,
            ) == Some(ValueView::Null)),
            Err(e) => required && (lookup(record@.fields, field_name@) is None || lookup(
                record@.fields,
                field_name@,
            ) == Some(ValueView::Null)) && e@ == (ViewErrorView::MissingRequiredField {
                field_name: field_name@,
                record_id: record@.id,
            }),
        },
{
    match record.fields.get(field_name) {
        Some(value) => {
            if value.is_null() {
                if required {
                    return Err(
                        ViewError::MissingRequiredField {
                            field_name: field_name.to_owned(),
                            record_id: record.id.clone(),
                        },
                    );
                }
                Ok(None)
            } else {
                Ok(Some(value.duplicate()))
            }
        },
        None => {
            if required {
                Err(
                    ViewError::MissingRequiredField {
                        field_name: field_name.to_owned(),
                        record_id: record.id.clone(),
                    },
                )
            } else {
                Ok(None)
            }
        },
    }
}

/// Process `records` under the view named `view_name`: look the view up in
/// the shipped registry, keep the records it includes, and shape them into
/// its output. An unknown name is an error enumerating the registered names.
pub fn process_with_view(view_name: &str, records: Vec<Record>) -> (r: Result<
    FieldValue,
    ViewError,
>)
    ensures
        view_name@ == "clio"@ ==> r is Ok && r->Ok_0@ == ValueView::List(
            clio_entries(clio_filtered(records_view(records@))),
        ),
        view_name@ != "clio"@ ==> match r {
            Err(e) => e@ == (ViewErrorView::UnknownView {
                name: view_name@,
                available: seq!["clio"@],
            }),
            Ok(_) => false,
        },
{
    let registry = ViewRegistry::new();
    let found = registry.get_view(view_name);
    match found {
        None => {
            let names = registry.list_views();
            let mut available: Vec<String> = Vec::new();
            let mut i: usize = 0;
            while i < names.len()
                invariant
                    i <= names@.len(),
                    available@.len() == i as int,
                    forall|k: int| 0 <= k < i as int ==> (#[trigger] available@[k])@
                        == names@[k].0@,
                decreases names@.len() - i,
            {
                available.push(names[i].0.to_owned());
                i = i + 1;
            }
            proof {
                assert(crate::request::strings_view(available@) =~= seq!["clio"@]);
            }
            Err(ViewError::UnknownView { name: view_name.to_owned(), available })
        },
        Some(view) => {
            let mut included: Vec<Record> = Vec::new();
            let n = records.len();
            let ghost allv = records@;
            let ghost all = records_view(records@);
            let mut remaining = records;
            let mut i: usize = 0;
            while i < n
                invariant
                    allv == records@,
                    remaining@ == allv.skip(i as int),
                    all == records_view(allv),
                    n == allv.len(),
                    i <= n,
                    *view == ViewKind::Clio(ClioView),
                    records_view(included@) == clio_filtered(all.take(i as int)),
                decreases n - i,
            {
                let ghost prev = records_view(included@);
                let record = remaining.remove(0);
                proof {
                    assert(record == allv[i as int]);
                    assert(record@ == all[i as int]);
                    assert(remaining@ =~= allv.skip(i as int + 1));
                }
                if view.should_include_record(&record) {
                    included.push(record);
                    proof {
                        assert(records_view(included@) =~= prev.push(all[i as int]));
                    }
                }
                proof {
                    assert(all.take(i as int + 1).drop_last() =~= all.take(i as int));
                    assert(all.take(i as int + 1).last() == all[i as int]);
                    assert(records_view(included@) =~= clio_filtered(all.take(i as int + 1)));
                }
                i = i + 1;
            }
            proof {
                assert(all.take(n as int) =~= all);
                assert forall|k: int|
                    0 <= k < clio_filtered(all).len() implies clio_includes(
                    #[trigger] clio_filtered(all)[k],
                ) by {
                    crate::views::clio::lemma_clio_filtered_included(all);
                }
                crate::views::clio::lemma_included_process_succeeds(records_view(included@));
            }
            view.process_records(included)
        },
    }
}

} // verus!
