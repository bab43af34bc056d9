//! The law-practice matter view.
//!
//! Keeps only the records whose "Clio Matter ID" field holds a non-blank
//! text value, and shapes each kept record into an object of six normalized
//! fields. The filter (`should_include_record`) and the formatter
//! (`process_records`) are proved consistent: a record the filter keeps can
//! never make the formatter fail on the required field.

use vstd::prelude::*;

use crate::fields::lookup;
use crate::models::Record;
use crate::models::RecordView;
use crate::models::records_view;
use crate::value::FieldValue;
use crate::value::ValueView;
use crate::value::lemma_entries_view_index;
use crate::value::lemma_values_view_index;
use crate::value::values_view;
use crate::views::ViewError;
use crate::views::ViewErrorView;
use crate::views::ViewProcessor;
use crate::views::extract_field_value;

verus! {

/// The field a record must carry, non-blank, to enter the view.
pub open spec fn key_field() -> Seq<char> {
    "Clio Matter ID"@
}

/// Whether `c` is white space: the Unicode White_Space code points, the set
/// `char::is_whitespace` accepts and `str::trim` removes.
pub open spec fn is_space_char(c: char) -> bool {
    let n = c as u32;
    (0x9 <= n && n <= 0xD) || n == 0x20 || n == 0x85 || n == 0xA0 || n == 0x1680 || (0x2000 <= n
        && n <= 0x200A) || n == 0x2028 || n == 0x2029 || n == 0x202F || n == 0x205F || n == 0x3000
}

/// Whether `s` holds nothing but blank space (an empty text is all blank).
pub open spec fn all_space(s: Seq<char>) -> bool {
    forall|i: int| 0 <= i < s.len() ==> is_space_char(#[trigger] s[i])
}

/// Whether the view keeps a record: its key field holds a text value that is
/// not empty and not blank space only.
pub open spec fn clio_includes(r: RecordView) -> bool {
    match lookup(r.fields, key_field()) {
        Some(v) => match v {
            ValueView::Str(s) => !all_space(s),
            _ => false,
        },
        None => false,
    }
}

/// Whether formatting a record can read its key field: the field is present
/// and non-null.
pub open spec fn clio_ok(r: RecordView) -> bool {
    match lookup(r.fields, key_field()) {
        Some(v) => v != ValueView::Null,
        None => false,
    }
}

/// The text of an optional field value: the text itself when the value is a
/// text, nothing otherwise.
pub open spec fn opt_str_of(v: Option<ValueView>) -> Seq<char> {
    match v {
        Some(w) => match w {
            ValueView::Str(s) => s,
            _ => Seq::empty(),
        },
        None => Seq::empty(),
    }
}

/// The object one record is shaped into: six normalized fields.
pub open spec fn clio_entry(r: RecordView) -> ValueView {
    ValueView::Object(
        seq![
            ("record_id"@, ValueView::Str(r.id)),
            ("matter_title"@, ValueView::Str(opt_str_of(lookup(r.fields, "Matter Title"@)))),
            ("clio_matter_id"@, ValueView::Str(opt_str_of(lookup(r.fields, key_field())))),
            ("clio_matter_url"@, ValueView::Str(opt_str_of(lookup(r.fields, "Clio Matter Url"@)))),
            (
                "clio_drive_folder"@,
                ValueView::Str(opt_str_of(lookup(r.fields, "Clio Drive Folder"@))),
            ),
            (
                "google_drive_link"@,
                ValueView::Str(
                    opt_str_of(lookup(r.fields, "Open in Google drive (from Clio Drive Folder)"@)),
                ),
            ),
        ],
    )
}

/// The objects a record sequence is shaped into, elementwise.
pub open spec fn clio_entries(rs: Seq<RecordView>) -> Seq<ValueView> {
    Seq::new(rs.len(), |i: int| clio_entry(rs[i]))
}

/// The records the view keeps, in order.
pub open spec fn clio_filtered(rs: Seq<RecordView>) -> Seq<RecordView>
    decreases rs.len(),
{
    if rs.len() == 0 {
        Seq::empty()
    } else {
        let rest = clio_filtered(rs.drop_last());
        if clio_includes(rs.last()) {
            rest.push(rs.last())
        } else {
            rest
        }
    }
}

/// The first index whose record the formatter cannot read (meaningful only
/// when one exists).
pub open spec fn clio_first_bad(rs: Seq<RecordView>) -> int
    decreases rs.len(),
{
    if rs.len() == 0 {
        0
    } else if !clio_ok(rs[0]) {
        0
    } else {
        1 + clio_first_bad(rs.drop_first())
    }
}

/// Whether the formatter can read every record.
pub open spec fn clio_all_ok(rs: Seq<RecordView>) -> bool {
    forall|i: int| 0 <= i < rs.len() ==> clio_ok(#[trigger] rs[i])
}

/// What formatting a record sequence yields: the shaped objects, or the
/// missing-field error naming the first unreadable record.
pub open spec fn clio_process(rs: Seq<RecordView>) -> Result<ValueView, ViewErrorView> {
    if clio_all_ok(rs) {
        Ok(ValueView::List(clio_entries(rs)))
    } else {
        Err(
            ViewErrorView::MissingRequiredField {
                field_name: key_field(),
                record_id: rs[clio_first_bad(rs)].id,
            },
        )
    }
}

/// Filter and format are consistent: a record the filter keeps always
/// carries the key field non-null, so the formatter can read it.
pub proof fn lemma_included_implies_ok(r: RecordView)
    ensures
        clio_includes(r) ==> clio_ok(r),
{
}

/// Every record of the filtered sequence was kept by the filter.
pub proof fn lemma_clio_filtered_included(rs: Seq<RecordView>)
    ensures
        forall|k: int|
            0 <= k < clio_filtered(rs).len() ==> clio_includes(#[trigger] clio_filtered(rs)[k]),
    decreases rs.len(),
{
    if rs.len() > 0 {
        lemma_clio_filtered_included(rs.drop_last());
        let rest = clio_filtered(rs.drop_last());
        if clio_includes(rs.last()) {
            assert(clio_filtered(rs) == rest.push(rs.last()));
            assert forall|k: int|
                0 <= k < clio_filtered(rs).len() implies clio_includes(
                #[trigger] clio_filtered(rs)[k],
            ) by {
                if k < rest.len() {
                    assert(clio_filtered(rs)[k] == rest[k]);
                } else {
                    assert(clio_filtered(rs)[k] == rs.last());
                }
            }
        } else {
            assert(clio_filtered(rs) == rest);
        }
    }
}

/// Formatting a sequence of filtered records never fails: each record was
/// kept by the filter, so its key field is readable.
pub proof fn lemma_included_process_succeeds(rs: Seq<RecordView>)
    requires
        forall|k: int| 0 <= k < rs.len() ==> clio_includes(#[trigger] rs[k]),
    ensures
        clio_process(rs) == Ok::<ValueView, ViewErrorView>(ValueView::List(clio_entries(rs))),
{
    assert forall|k: int| 0 <= k < rs.len() implies clio_ok(#[trigger] rs[k]) by {
        lemma_included_implies_ok(rs[k]);
    }
}

/// When every record before `i` is readable and the one at `i` is not, `i`
/// is the first unreadable index.
proof fn lemma_first_bad_at(rs: Seq<RecordView>, i: int)
    requires
        0 <= i < rs.len(),
        !clio_ok(rs[i]),
        forall|j: int| 0 <= j < i ==> clio_ok(#[trigger] rs[j]),
    ensures
        clio_first_bad(rs) == i,
    decreases i,
{
    if i > 0 {
        lemma_first_bad_at(rs.drop_first(), i - 1);
    }
}

/// Whether `s` holds nothing but blank space.
pub fn is_blank(s: &str) -> (r: bool)
    ensures
        r == all_space(s@),
{
    let n = s.unicode_len();
    let mut i: usize = 0;
    while i < n
        invariant
            n == s@.len(),
            i <= n,
            forall|j: int| 0 <= j < i as int ==> is_space_char(#[trigger] s@[j]),
        decreases n - i,
    {
        let c = s.get_char(i);
        let n_c = c as u32;
        let white = (0x9 <= n_c && n_c <= 0xD) || n_c == 0x20 || n_c == 0x85 || n_c == 0xA0 || n_c
            == 0x1680 || (0x2000 <= n_c && n_c <= 0x200A) || n_c == 0x2028 || n_c == 0x2029 || n_c
            == 0x202F || n_c == 0x205F || n_c == 0x3000;
        if !white {
            return false;
        }
        i = i + 1;
    }
    true
}

/// The text of one optional field of a record, degrading to the empty text
/// when the field is absent, null, or not a text.
fn optional_text(record: &Record, field: &str) -> (r: String)
    ensures
        r@ == opt_str_of(lookup(record@.fields, field@)),
{
    match extract_field_value(record, field, false) {
        Ok(o) => match o {
            Some(v) => match v.as_str() {
                Some(s) => s.clone(),
                None => String::new(),
            },
            None => String::new(),
        },
        Err(_) => String::new(),
    }
}

/// The law-practice matter view processor.
#[derive(Debug, PartialEq, Eq, Structural)]
pub struct ClioView;

impl ClioView {
    /// The view processor, ready to register.
    pub fn new() -> (r: ClioView)
        ensures
            r == ClioView,
    {
        ClioView
    }
}

impl ViewProcessor for ClioView {
    open spec fn spec_name(&self) -> Seq<char> {
        "clio"@
    }

    open spec fn spec_description(&self) -> Seq<char> {
        "Extract Matter records with Clio integration fields (filters null Clio Matter IDs)"@
    }

    open spec fn spec_includes(&self, r: RecordView) -> bool {
        clio_includes(r)
    }

    open spec fn spec_process(&self, rs: Seq<RecordView>) -> Result<ValueView, ViewErrorView> {
        clio_process(rs)
    }

    open spec fn spec_required_fields(&self) -> Seq<Seq<char>> {
        seq![key_field()]
    }

    open spec fn spec_optional_fields(&self) -> Seq<Seq<char>> {
        seq![
            "Matter Title"@,
            "Clio Matter Url"@,
            "Clio Drive Folder"@,
            "Open in Google drive (from Clio Drive Folder)"@,
        ]
    }

    fn name(&self) -> (r: &'static str) {
        "clio"
    }

    fn description(&self) -> (r: &'static str) {
        "Extract Matter records with Clio integration fields (filters null Clio Matter IDs)"
    }

    fn required_fields(&self) -> (r: Vec<&'static str>) {
        let mut v: Vec<&'static str> = Vec::new();
        v.push("Clio Matter ID");
        proof {
            assert(Seq::new(v@.len(), |i: int| v@[i]@) =~= self.spec_required_fields());
        }
        v
    }

    fn optional_fields(&self) -> (r: Vec<&'static str>) {
        let mut v: Vec<&'static str> = Vec::new();
        v.push("Matter Title");
        v.push("Clio Matter Url");
        v.push("Clio Drive Folder");
        v.push("Open in Google drive (from Clio Drive Folder)");
        proof {
            assert(Seq::new(v@.len(), |i: int| v@[i]@) =~= self.spec_optional_fields());
        }
        v
    }

    fn should_include_record(&self, record: &Record) -> (r: bool) {
        match record.fields.get("Clio Matter ID") {
            Some(value) => match value.as_str() {
                Some(s) => !is_blank(s.as_str()),
                None => false,
            },
            None => false,
        }
    }

    fn process_records(&self, records: Vec<Record>) -> (r: Result<FieldValue, ViewError>) {
        let ghost allv = records@;
        let ghost all = records_view(records@);
        let mut result_records: Vec<FieldValue> = Vec::new();
        let mut remaining = records;
        let n = remaining.len();
        let mut i: usize = 0;
        while i < n
            invariant
                allv == records@,
                remaining@ == allv.skip(i as int),
                all == records_view(allv),
                n == allv.len(),
                i <= n,
                forall|j: int| 0 <= j < i as int ==> clio_ok(#[trigger] all[j]),
                values_view(result_records@) == clio_entries(all.take(i as int)),
            decreases n - i,
        {
            broadcast use lemma_values_view_index, lemma_entries_view_index;

            let record = remaining.remove(0);
            proof {
                assert(record == allv[i as int]);
                assert(record@ == all[i as int]);
                assert(remaining@ =~= allv.skip(i as int + 1));
            }
            let required_value = match extract_field_value(&record, "Clio Matter ID", true) {
                Ok(v) => v,
                Err(e) => {
                    proof {
                        assert(!clio_ok(all[i as int]));
                        assert(!clio_all_ok(all));
                        lemma_first_bad_at(all, i as int);
                        assert(clio_process(all) == Err::<ValueView, ViewErrorView>(e@));
                        assert(all == records_view(records@));
                    }
                    return Err(e);
                },
            };
            let clio_matter_id: String = match required_value {
                Some(v) => match v.as_str() {
                    Some(s) => s.clone(),
                    None => String::new(),
                },
                None => String::new(),
            };
            let matter_title = optional_text(&record, "Matter Title");
            let clio_matter_url = optional_text(&record, "Clio Matter Url");
            let clio_drive_folder = optional_text(&record, "Clio Drive Folder");
            let google_drive_link = optional_text(
                &record,
                "Open in Google drive (from Clio Drive Folder)",
            );
            let mut entry_fields: Vec<(String, FieldValue)> = Vec::new();
            entry_fields.push((String::from_str("record_id"), FieldValue::Str(record.id.clone())));
            entry_fields.push((String::from_str("matter_title"), FieldValue::Str(matter_title)));
            entry_fields.push(
                (String::from_str("clio_matter_id"), FieldValue::Str(clio_matter_id)),
            );
            entry_fields.push(
                (String::from_str("clio_matter_url"), FieldValue::Str(clio_matter_url)),
            );
            entry_fields.push(
                (String::from_str("clio_drive_folder"), FieldValue::Str(clio_drive_folder)),
            );
            entry_fields.push(
                (String::from_str("google_drive_link"), FieldValue::Str(google_drive_link)),
            );
            let entry = FieldValue::Object(entry_fields);
            proof {
                assert(crate::value::entries_view(entry->Object_0@) =~= clio_entry(
                    all[i as int],
                )->Object_0);
                assert(entry@ == clio_entry(all[i as int]));
            }
            let ghost prev = values_view(result_records@);
            result_records.push(entry);
            i = i + 1;
            proof {
                assert(values_view(result_records@) =~= prev.push(clio_entry(all[i - 1])));
                assert(clio_entries(all.take(i as int)) =~= prev.push(clio_entry(all[i - 1])));
            }
        }
        proof {
            broadcast use lemma_values_view_index;

            assert(all.take(n as int) =~= all);
            assert(clio_all_ok(all));
            assert(all == records_view(records@));
        }
        let out = FieldValue::List(result_records);
        proof {
            assert(out@ == ValueView::List(values_view(result_records@)));
            assert(clio_process(all) == Ok::<ValueView, ViewErrorView>(out@));
        }
        Ok(out)
    }
}

} // verus!
