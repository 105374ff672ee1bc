//! What each report table holds: its title, its header and, per row, the
//! cells with the way each should be highlighted. Drawing the table is left
//! to the reporter; a kind that produced no row gets no table at all.
use vstd::prelude::*;
use crate::task::{CheckKind, ResultRow, row_kind};
use crate::version::views;

verus! {

/// How a cell should stand out.
#[derive(Debug, Clone, Copy, PartialEq, Eq, Structural)]
pub enum Highlight {
    Plain,
    Centered,
    /// A newer version is available.
    Available,
    /// The newest version is in use.
    NotAvailable,
    /// Something should be done (a key to rotate or delete).
    NeedsAction,
    /// Nothing needs doing.
    NoAction,
}

/// What a cell shows.
#[derive(Debug, Clone)]
pub enum CellValue {
    Text(String),
    /// A number of days.
    Days(i64),
}

/// One cell of a row.
#[derive(Debug, Clone)]
pub struct Cell {
    pub value: CellValue,
    pub highlight: Highlight,
}

/// The table of one check kind.
#[derive(Debug, Clone)]
pub struct ReportBatch {
    pub kind: CheckKind,
    pub title: String,
    pub header: Vec<String>,
    pub rows: Vec<Vec<Cell>>,
}

pub open spec fn text_cell(c: Cell, s: String, h: Highlight) -> bool {
    c.value == CellValue::Text(s) && c.highlight == h
}

/// The cell saying whether an upgrade is available.
pub open spec fn upgrade_cell(c: Cell, available: bool) -> bool {
    c.value matches CellValue::Text(t) && if available {
        t@ == "Available"@ && c.highlight == Highlight::Available
    } else {
        t@ == "Not Available"@ && c.highlight == Highlight::NotAvailable
    }
}

/// The cell saying whether something should be done.
pub open spec fn action_cell(c: Cell, needed: bool) -> bool {
    c.value matches CellValue::Text(t) && if needed {
        t@ == "Yes"@ && c.highlight == Highlight::NeedsAction
    } else {
        t@ == "No"@ && c.highlight == Highlight::NoAction
    }
}

/// The cells of a row, field by field.
pub open spec fn cells_of(row: ResultRow, c: Seq<Cell>) -> bool {
    match row {
        ResultRow::Cluster(r) => {
            &&& c.len() == 6
            &&& text_cell(c[0], r.account_id, Highlight::Plain)
            &&& text_cell(c[1], r.cluster_name, Highlight::Plain)
            &&& text_cell(c[2], r.region, Highlight::Centered)
            &&& text_cell(c[3], r.data.cluster_version, Highlight::Centered)
            &&& text_cell(c[4], r.data.latest_cluster_version, Highlight::Centered)
            &&& upgrade_cell(c[5], r.data.upgrade_available)
        },
        ResultRow::NodeGroup(r) => {
            &&& c.len() == 7
            &&& text_cell(c[0], r.account_id, Highlight::Plain)
            &&& text_cell(c[1], r.cluster_name, Highlight::Plain)
            &&& text_cell(c[2], r.region, Highlight::Centered)
            &&& text_cell(c[3], r.data.node_name, Highlight::Plain)
            &&& text_cell(c[4], r.data.ami_name, Highlight::Centered)
            &&& text_cell(c[5], r.data.latest_ami_name, Highlight::Centered)
            &&& upgrade_cell(c[6], r.data.upgrade_available)
        },
        ResultRow::Addon(r) => {
            &&& c.len() == 7
            &&& text_cell(c[0], r.account_id, Highlight::Plain)
            &&& text_cell(c[1], r.cluster_name, Highlight::Plain)
            &&& text_cell(c[2], r.region, Highlight::Centered)
            &&& text_cell(c[3], r.addon_name, Highlight::Plain)
            &&& text_cell(c[4], r.current_version, Highlight::Plain)
            &&& text_cell(c[5], r.latest_version, Highlight::Plain)
            &&& upgrade_cell(c[6], r.upgrade_available)
        },
        ResultRow::AccessKey(r) => {
            &&& c.len() == 9
            &&& text_cell(c[0], r.account_id, Highlight::Centered)
            &&& text_cell(c[1], r.user_name, Highlight::Plain)
            &&& text_cell(c[2], r.key_id, Highlight::Plain)
            &&& text_cell(c[3], r.create_date, Highlight::Plain)
            &&& text_cell(c[4], r.status, Highlight::Plain)
            &&& c[5] == Cell { value: CellValue::Days(r.age_days), highlight: Highlight::Plain }
            &&& c[6] == Cell { value: CellValue::Days(r.last_used_days), highlight: Highlight::Plain }
            &&& action_cell(c[7], r.needs_rotation)
            &&& action_cell(c[8], r.eligible_for_deletion)
        },
    }
}

/// The title of the table of a kind.
pub open spec fn title_of(kind: CheckKind) -> Seq<char> {
    match kind {
        CheckKind::ClusterVersion => "EKS Cluster Details: "@,
        CheckKind::NodeGroupAmi => "Nodegroup Details: "@,
        CheckKind::Addon => "Addons Details: "@,
        CheckKind::IamAccessKey => "IAM User Access Keys Details: "@,
    }
}

/// The header of the table of a kind.
pub open spec fn header_of(kind: CheckKind) -> Seq<Seq<char>> {
    match kind {
        CheckKind::ClusterVersion => seq![
            "AWS Account ID"@,
            "EKS Cluster Name"@,
            "Region"@,
            "EKS Cluster Version"@,
            "Latest Version Available"@,
            "Upgrade Available"@,
        ],
        CheckKind::NodeGroupAmi => seq![
            "AWS Account ID"@,
            "EKS Cluster Name"@,
            "Region"@,
            "Nodegroup Name"@,
            "AMI Version"@,
            "Latest AMI Version"@,
            "Upgrade Available"@,
        ],
        CheckKind::Addon => seq![
            "AWS Account ID"@,
            "EKS Cluster Name"@,
            "Region"@,
            "Addon Name"@,
            "Installed Version"@,
            "Latest Version"@,
            "Upgrade Available"@,
        ],
        CheckKind::IamAccessKey => seq![
            "AWS Account ID"@,
            "IAM User"@,
            "Access Key ID"@,
            "Create Date"@,
            "Status"@,
            "Age"@,
            "Last Used"@,
            "Need To Rotated"@,
            "Check To Delete"@,
        ],
    }
}

/// The rows of `kind` among `s`, in order.
pub open spec fn rows_of_kind(s: Seq<ResultRow>, kind: CheckKind) -> Seq<ResultRow>
    decreases s.len(),
{
    if s.len() == 0 {
        Seq::empty()
    } else if row_kind(s.last()) == kind {
        rows_of_kind(s.drop_last(), kind).push(s.last())
    } else {
        rows_of_kind(s.drop_last(), kind)
    }
}

fn text(s: &String, highlight: Highlight) -> (r: Cell)
    ensures
        text_cell(r, *s, highlight),
{
    Cell { value: CellValue::Text(s.clone()), highlight }
}

fn upgrade(available: bool) -> (r: Cell)
    ensures
        upgrade_cell(r, available),
{
    if available {
        Cell { value: CellValue::Text(String::from_str("Available")), highlight: Highlight::Available }
    } else {
        Cell {
            value: CellValue::Text(String::from_str("Not Available")),
            highlight: Highlight::NotAvailable,
        }
    }
}

fn action(needed: bool) -> (r: Cell)
    ensures
        action_cell(r, needed),
{
    if needed {
        Cell { value: CellValue::Text(String::from_str("Yes")), highlight: Highlight::NeedsAction }
    } else {
        Cell { value: CellValue::Text(String::from_str("No")), highlight: Highlight::NoAction }
    }
}

/// The cells of a row.
pub fn row_cells(row: &ResultRow) -> (r: Vec<Cell>)
    ensures
        cells_of(*row, r@),
{
    match row {
        ResultRow::Cluster(x) => vec![
            text(&x.account_id, Highlight::Plain),
            text(&x.cluster_name, Highlight::Plain),
            text(&x.region, Highlight::Centered),
            text(&x.data.cluster_version, Highlight::Centered),
            text(&x.data.latest_cluster_version, Highlight::Centered),
            upgrade(x.data.upgrade_available),
        ],
        ResultRow::NodeGroup(x) => vec![
            text(&x.account_id, Highlight::Plain),
            text(&x.cluster_name, Highlight::Plain),
            text(&x.region, Highlight::Centered),
            text(&x.data.node_name, Highlight::Plain),
            text(&x.data.ami_name, Highlight::Centered),
            text(&x.data.latest_ami_name, Highlight::Centered),
            upgrade(x.data.upgrade_available),
        ],
        ResultRow::Addon(x) => vec![
            text(&x.account_id, Highlight::Plain),
            text(&x.cluster_name, Highlight::Plain),
            text(&x.region, Highlight::Centered),
            text(&x.addon_name, Highlight::Plain),
            text(&x.current_version, Highlight::Plain),
            text(&x.latest_version, Highlight::Plain),
            upgrade(x.upgrade_available),
        ],
        ResultRow::AccessKey(x) => vec![
            text(&x.account_id, Highlight::Centered),
            text(&x.user_name, Highlight::Plain),
            text(&x.key_id, Highlight::Plain),
            text(&x.create_date, Highlight::Plain),
            text(&x.status, Highlight::Plain),
            Cell { value: CellValue::Days(x.age_days), highlight: Highlight::Plain },
            Cell { value: CellValue::Days(x.last_used_days), highlight: Highlight::Plain },
            action(x.needs_rotation),
            action(x.eligible_for_deletion),
        ],
    }
}

fn title(kind: CheckKind) -> (r: String)
    ensures
        r@ == title_of(kind),
{
    match kind {
        CheckKind::ClusterVersion => String::from_str("EKS Cluster Details: "),
        CheckKind::NodeGroupAmi => String::from_str("Nodegroup Details: "),
        CheckKind::Addon => String::from_str("Addons Details: "),
        CheckKind::IamAccessKey => String::from_str("IAM User Access Keys Details: "),
    }
}

fn strings(names: &Vec<&'static str>) -> (r: Vec<String>)
    ensures
        r@.len() == names@.len(),
        forall|i: int| 0 <= i < names@.len() ==> (#[trigger] r@[i])@ == names@[i]@,
{
    let mut out: Vec<String> = Vec::new();
    let mut i: usize = 0;
    while i < names.len()
        invariant
            i <= names@.len(),
            out@.len() == i,
            forall|j: int| 0 <= j < i ==> (#[trigger] out@[j])@ == names@[j]@,
        decreases names@.len() - i,
    {
        out.push(String::from_str(names[i]));
        i = i + 1;
    }
    out
}

fn header(kind: CheckKind) -> (r: Vec<String>)
    ensures
        views(r@) == header_of(kind),
{
    let names: Vec<&'static str> = match kind {
        CheckKind::ClusterVersion => vec![
            "AWS Account ID",
            "EKS Cluster Name",
            "Region",
            "EKS Cluster Version",
            "Latest Version Available",
            "Upgrade Available",
        ],
        CheckKind::NodeGroupAmi => vec![
            "AWS Account ID",
            "EKS Cluster Name",
            "Region",
            "Nodegroup Name",
            "AMI Version",
            "Latest AMI Version",
            "Upgrade Available",
        ],
        CheckKind::Addon => vec![
            "AWS Account ID",
            "EKS Cluster Name",
            "Region",
            "Addon Name",
            "Installed Version",
            "Latest Version",
            "Upgrade Available",
        ],
        CheckKind::IamAccessKey => vec![
            "AWS Account ID",
            "IAM User",
            "Access Key ID",
            "Create Date",
            "Status",
            "Age",
            "Last Used",
            "Need To Rotated",
            "Check To Delete",
        ],
    };
    let r = strings(&names);
    assert(views(r@) =~= header_of(kind));
    r
}

/// The table of check `kind` from the rows gathered, in the order they
/// arrived; `None`, so that nothing at all is shown, when no row is of that
/// kind.
pub fn report(kind: CheckKind, rows: &Vec<ResultRow>) -> (r: Option<ReportBatch>)
    ensures
        r is None <==> rows_of_kind(rows@, kind).len() == 0,
        r matches Some(b) ==> {
            &&& b.kind == kind
            &&& b.title@ == title_of(kind)
            &&& views(b.header@) == header_of(kind)
            &&& b.rows@.len() == rows_of_kind(rows@, kind).len()
            &&& forall|i: int| 0 <= i < b.rows@.len() ==> cells_of(rows_of_kind(rows@, kind)[i], #[trigger] b.rows@[i]@)
        },
{
    let ghost s = rows@;
    let mut table: Vec<Vec<Cell>> = Vec::new();
    let mut i: usize = 0;
    while i < rows.len()
        invariant
            s == rows@,
            i <= s.len(),
            table@.len() == rows_of_kind(s.take(i as int), kind).len(),
            forall|j: int| 0 <= j < table@.len() ==> cells_of(rows_of_kind(s.take(i as int), kind)[j], #[trigger] table@[j]@),
        decreases s.len() - i,
    {
        proof {
            assert(s.take(i + 1).drop_last() =~= s.take(i as int));
            assert(s.take(i + 1).last() == s[i as int]);
        }
        if rows[i].kind() == kind {
            table.push(row_cells(&rows[i]));
        }
        i = i + 1;
    }
    assert(s.take(s.len() as int) =~= s);
    if table.len() == 0 {
        None
    } else {
        Some(ReportBatch { kind, title: title(kind), header: header(kind), rows: table })
    }
}

} // verus!
