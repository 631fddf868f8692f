//! Construction of the selection statement sent to the time-series store,
//! scoped to one series, one entity and one time window.

use vstd::prelude::*;
use vstd::string::StringExecFns;
use crate::window::TimeWindow;

verus! {

/// The four disjoint entity categories, each with its own column schema.
/// Sensor categories filter by device; electrical categories by channel.
#[derive(Clone, Copy, Debug, PartialEq, Eq, Structural)]
pub enum Category {
    Surface,
    Ambient,
    Ac,
    Dc,
}

impl Category {
    /// The entity-identifying field name of the category's queries.
    pub open spec fn spec_field_name(self) -> Seq<char> {
        match self {
            Category::Surface => "device"@,
            Category::Ambient => "device"@,
            Category::Ac => "channel"@,
            Category::Dc => "channel"@,
        }
    }

    /// The entity-identifying field name of the category's queries.
    pub fn field_name(self) -> (r: &'static str)
        ensures
            r@ == self.spec_field_name(),
    {
        match self {
            Category::Surface => "device",
            Category::Ambient => "device",
            Category::Ac => "channel",
            Category::Dc => "channel",
        }
    }
}

/// The selection statement for one series, entity and window. All values are
/// interpolated as literal text; the caller guarantees that they hold no
/// characters that would alter the statement's structure.
pub open spec fn query_text(
    series: Seq<char>,
    field: Seq<char>,
    entity: Seq<char>,
    start: Seq<char>,
    end: Seq<char>,
) -> Seq<char> {
    "SELECT * FROM \""@ + series + "\" WHERE "@ + field + " = '"@ + entity + "' AND time >= '"@
        + start + "' AND time <= '"@ + end + "'"@
}

/// Renders the selection statement for `series`, the entity `entity` of
/// `category`, and the window `window`.
pub fn build_query(series: &str, category: Category, entity: &str, window: &TimeWindow) -> (r:
    String)
    ensures
        r@ == query_text(
            series@,
            category.spec_field_name(),
            entity@,
            window.start@,
            window.end@,
        ),
{
    let mut s = String::new();
    s.append("SELECT * FROM \"");
    s.append(series);
    s.append("\" WHERE ");
    s.append(category.field_name());
    s.append(" = '");
    s.append(entity);
    s.append("' AND time >= '");
    s.append(window.start.as_str());
    s.append("' AND time <= '");
    s.append(window.end.as_str());
    s.append("'");
    proof {
        assert(s@ =~= query_text(
            series@,
            category.spec_field_name(),
            entity@,
            window.start@,
            window.end@,
        ));
    }
    s
}

} // verus!
