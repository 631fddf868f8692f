//! Planning one pipeline pass: from the configuration and the run date to
//! the ordered list of queries to issue and the files their results are
//! written under. The caller issues each planned statement against the
//! store, hands the payload to the projector, and writes the rendered
//! table under the planned file name.

use vstd::prelude::*;
use vstd::string::StringExecFns;
use crate::config::Config;
use crate::date::DateYmd;
use crate::emit::file_name_for;
use crate::emit::file_name_text;
use crate::query::Category;
use crate::query::build_query;
use crate::query::query_text;
use crate::window::TimeWindow;
use crate::window::WindowError;
use crate::window::window_for;

verus! {

/// One planned query of a pass: the entity it is scoped to, the rendered
/// selection statement, and the name of the file its table is written under.
pub struct QueryJob {
    pub category: Category,
    pub entity: String,
    pub statement: String,
    pub file_name: String,
}

/// Whether `job` is the planned query for `entity` of category `cat`
/// against `series`, within window `w`, on run date `date`.
pub open spec fn job_matches(
    job: QueryJob,
    cat: Category,
    series: Seq<char>,
    entity: Seq<char>,
    w: TimeWindow,
    date: DateYmd,
) -> bool {
    &&& job.category == cat
    &&& job.entity@ == entity
    &&& job.statement@ == query_text(series, cat.spec_field_name(), entity, w.start@, w.end@)
    &&& job.file_name@ == file_name_text(date, entity)
}

/// The plan of one pass: the resolved window, and one job per configured
/// entity, grouped by category in configured order.
pub struct PassPlan {
    pub window: TimeWindow,
    pub jobs: Vec<QueryJob>,
}

/// The series a category's queries select from: the electrical series is
/// shared by both channel categories.
pub open spec fn category_series(cfg: Config, cat: Category) -> Seq<char> {
    match cat {
        Category::Surface => cfg.sensor_series@,
        Category::Ambient => cfg.ambient_series@,
        Category::Ac => cfg.electrical_series@,
        Category::Dc => cfg.electrical_series@,
    }
}

/// The configured entities of a category.
pub open spec fn category_entities(cfg: Config, cat: Category) -> Seq<String> {
    match cat {
        Category::Surface => cfg.surface_devices@,
        Category::Ambient => cfg.ambient_devices@,
        Category::Ac => cfg.ac_channels@,
        Category::Dc => cfg.dc_channels@,
    }
}

/// Whether `p` is the plan of one pass for `cfg` on `date`: one job per
/// configured entity, in configured order (surface devices, then ambient
/// devices, then AC channels, then DC channels), each scoped to its
/// category's series and the pass's window, each output file named for the
/// run date and the entity.
pub open spec fn plan_matches(cfg: Config, date: DateYmd, p: PassPlan) -> bool {
    let ns = cfg.surface_devices@.len() as int;
    let na = cfg.ambient_devices@.len() as int;
    let nac = cfg.ac_channels@.len() as int;
    let ndc = cfg.dc_channels@.len() as int;
    &&& p.window.wf()
    &&& p.window.end_date == date
    &&& p.jobs@.len() == ns + na + nac + ndc
    &&& forall|k: int|
        0 <= k < ns ==> job_matches(
            #[trigger] p.jobs@[k],
            Category::Surface,
            cfg.sensor_series@,
            cfg.surface_devices@[k]@,
            p.window,
            date,
        )
    &&& forall|k: int|
        ns <= k < ns + na ==> job_matches(
            #[trigger] p.jobs@[k],
            Category::Ambient,
            cfg.ambient_series@,
            cfg.ambient_devices@[k - ns]@,
            p.window,
            date,
        )
    &&& forall|k: int|
        ns + na <= k < ns + na + nac ==> job_matches(
            #[trigger] p.jobs@[k],
            Category::Ac,
            cfg.electrical_series@,
            cfg.ac_channels@[k - ns - na]@,
            p.window,
            date,
        )
    &&& forall|k: int|
        ns + na + nac <= k < ns + na + nac + ndc ==> job_matches(
            #[trigger] p.jobs@[k],
            Category::Dc,
            cfg.electrical_series@,
            cfg.dc_channels@[k - ns - na - nac]@,
            p.window,
            date,
        )
}

/// Appends one job per entity of one category, in configured order.
fn append_category(
    jobs: &mut Vec<QueryJob>,
    cat: Category,
    series: &str,
    entities: &Vec<String>,
    w: &TimeWindow,
    date: &DateYmd,
)
    requires
        date.wf(),
    ensures
        final(jobs)@.len() == old(jobs)@.len() + entities@.len(),
        forall|k: int| 0 <= k < old(jobs)@.len() ==> final(jobs)@[k] == old(jobs)@[k],
        forall|k: int|
            0 <= k < entities@.len() ==> job_matches(
                #[trigger] final(jobs)@[old(jobs)@.len() + k],
                cat,
                series@,
                entities@[k]@,
                *w,
                *date,
            ),
{
    let n = entities.len();
    let mut idx: usize = 0;
    while idx < n
        invariant
            idx <= n,
            n == entities@.len(),
            date.wf(),
            jobs@.len() == old(jobs)@.len() + idx,
            forall|k: int| 0 <= k < old(jobs)@.len() ==> jobs@[k] == old(jobs)@[k],
            forall|k: int|
                0 <= k < idx ==> job_matches(
                    #[trigger] jobs@[old(jobs)@.len() + k],
                    cat,
                    series@,
                    entities@[k]@,
                    *w,
                    *date,
                ),
        decreases n - idx,
    {
        let entity = &entities[idx];
        let statement = build_query(series, cat, entity.as_str(), w);
        let file_name = file_name_for(date, entity.as_str());
        jobs.push(QueryJob { category: cat, entity: entity.clone(), statement, file_name });
        idx = idx + 1;
    }
}

/// Plans one pass: derives the window for `date` and lays out one query
/// job per configured entity, grouped by category in configured order.
/// Fails only when the window cannot be derived; every date from year two
/// onward succeeds, whatever the entity lists hold.
pub fn plan_pass(cfg: &Config, date: &DateYmd) -> (r: Result<PassPlan, WindowError>)
    requires
        date.wf(),
    ensures
        r matches Ok(p) ==> plan_matches(*cfg, *date, p),
        date.year >= 2 ==> r is Ok,
        r matches Err(e) ==> e == WindowError::OutOfRange,
{
    let window = match window_for(date) {
        Ok(w) => w,
        Err(e) => {
            return Err(e);
        },
    };
    let mut jobs: Vec<QueryJob> = Vec::new();
    append_category(
        &mut jobs,
        Category::Surface,
        cfg.sensor_series.as_str(),
        &cfg.surface_devices,
        &window,
        date,
    );
    let ghost j1 = jobs@;
    append_category(
        &mut jobs,
        Category::Ambient,
        cfg.ambient_series.as_str(),
        &cfg.ambient_devices,
        &window,
        date,
    );
    let ghost j2 = jobs@;
    append_category(
        &mut jobs,
        Category::Ac,
        cfg.electrical_series.as_str(),
        &cfg.ac_channels,
        &window,
        date,
    );
    let ghost j3 = jobs@;
    append_category(
        &mut jobs,
        Category::Dc,
        cfg.electrical_series.as_str(),
        &cfg.dc_channels,
        &window,
        date,
    );
    proof {
        let ns = cfg.surface_devices@.len() as int;
        let na = cfg.ambient_devices@.len() as int;
        let nac = cfg.ac_channels@.len() as int;
        let ndc = cfg.dc_channels@.len() as int;
        assert forall|k: int| 0 <= k < ns implies job_matches(
            #[trigger] jobs@[k],
            Category::Surface,
            cfg.sensor_series@,
            cfg.surface_devices@[k]@,
            window,
            *date,
        ) by {
            assert(jobs@[k] == j3[k] && j3[k] == j2[k] && j2[k] == j1[k]);
            assert(job_matches(
                j1[0 + k],
                Category::Surface,
                cfg.sensor_series@,
                cfg.surface_devices@[k]@,
                window,
                *date,
            ));
        }
        assert forall|k: int| ns <= k < ns + na implies job_matches(
            #[trigger] jobs@[k],
            Category::Ambient,
            cfg.ambient_series@,
            cfg.ambient_devices@[k - ns]@,
            window,
            *date,
        ) by {
            assert(jobs@[k] == j3[k] && j3[k] == j2[k]);
            assert(job_matches(
                j2[ns + (k - ns)],
                Category::Ambient,
                cfg.ambient_series@,
                cfg.ambient_devices@[k - ns]@,
                window,
                *date,
            ));
        }
        assert forall|k: int| ns + na <= k < ns + na + nac implies job_matches(
            #[trigger] jobs@[k],
            Category::Ac,
            cfg.electrical_series@,
            cfg.ac_channels@[k - ns - na]@,
            window,
            *date,
        ) by {
            assert(jobs@[k] == j3[k]);
            assert(job_matches(
                j3[(ns + na) + (k - ns - na)],
                Category::Ac,
                cfg.electrical_series@,
                cfg.ac_channels@[k - ns - na]@,
                window,
                *date,
            ));
        }
        assert forall|k: int| ns + na + nac <= k < ns + na + nac + ndc implies job_matches(
            #[trigger] jobs@[k],
            Category::Dc,
            cfg.electrical_series@,
            cfg.dc_channels@[k - ns - na - nac]@,
            window,
            *date,
        ) by {
            assert(job_matches(
                jobs@[(ns + na + nac) + (k - ns - na - nac)],
                Category::Dc,
                cfg.electrical_series@,
                cfg.dc_channels@[k - ns - na - nac]@,
                window,
                *date,
            ));
        }
    }
    Ok(PassPlan { window, jobs })
}

/// A category with no configured entities contributes no queries to a
/// pass's plan, and so no output files, while the plan itself stands.
pub proof fn lemma_empty_category_no_jobs(
    cfg: Config,
    date: DateYmd,
    p: PassPlan,
    cat: Category,
)
    requires
        plan_matches(cfg, date, p),
        category_entities(cfg, cat).len() == 0,
    ensures
        forall|k: int| 0 <= k < p.jobs@.len() ==> (#[trigger] p.jobs@[k]).category != cat,
{
    let ns = cfg.surface_devices@.len() as int;
    let na = cfg.ambient_devices@.len() as int;
    let nac = cfg.ac_channels@.len() as int;
    assert forall|k: int| 0 <= k < p.jobs@.len() implies (#[trigger] p.jobs@[k]).category
        != cat by {
        if k < ns {
            assert(p.jobs@[k].category == Category::Surface);
            if cat == Category::Surface {
                assert(ns == 0);
            }
        } else if k < ns + na {
            assert(p.jobs@[k].category == Category::Ambient);
            if cat == Category::Ambient {
                assert(na == 0);
            }
        } else if k < ns + na + nac {
            assert(p.jobs@[k].category == Category::Ac);
            if cat == Category::Ac {
                assert(nac == 0);
            }
        } else {
            assert(p.jobs@[k].category == Category::Dc);
            if cat == Category::Dc {
                assert(p.jobs@.len() == ns + na + nac);
            }
        }
    }
}

} // verus!
