//! Render tasks: which side or sides an image goes to, and how the result
//! of a task follows from the results of its sides.

use vstd::prelude::*;

use crate::gray_image::GrayImage;
use crate::port::DisplayError;
use crate::transmission::{Action, TransportError};

verus! {

/// One of the two physical display positions.
#[derive(Debug, Clone, Copy, PartialEq, Eq, Structural)]
pub enum Side {
    Left,
    Right,
}

/// A unit of work: the image or images to show and where. A task always
/// names at least one side.
#[derive(Debug)]
pub enum RenderTask {
    Left(GrayImage),
    Right(GrayImage),
    Both(GrayImage, GrayImage),
}

/// One side's share of a task.
#[derive(Debug)]
pub struct SideJob {
    pub side: Side,
    pub image: GrayImage,
}

/// Why one side failed to render.
#[derive(Debug, Clone, Copy, PartialEq, Eq, Structural)]
pub enum SideFailure {
    /// The image was refused before anything was sent.
    Display(DisplayError),
    /// The device could not be opened, written or read.
    Transport(TransportError),
    /// The work on the side panicked or was cancelled before it finished.
    Join,
}

/// The result of one side's work.
#[derive(Debug, Clone, Copy, PartialEq, Eq, Structural)]
pub enum SideResult {
    Rendered,
    Failed(SideFailure),
}

/// One side and how its work ended.
#[derive(Debug, Clone, Copy, PartialEq, Eq, Structural)]
pub struct SideOutcome {
    pub side: Side,
    pub result: SideResult,
}

/// Why a task failed.
#[derive(Debug, Clone, Copy, PartialEq, Eq, Structural)]
pub enum RenderError {
    LeftNotConfigured,
    RightNotConfigured,
    BothNotConfigured,
    Side(Side, SideFailure),
}

/// The sides that a task needs, with their images, in order left then right;
/// or why it cannot run. A task is never cut down to part of its sides.
pub open spec fn render_plan(task: RenderTask, left_configured: bool, right_configured: bool) -> Result<
    Seq<(Side, GrayImage)>,
    RenderError,
> {
    match task {
        RenderTask::Left(img) => if left_configured {
            Ok(seq![(Side::Left, img)])
        } else {
            Err(RenderError::LeftNotConfigured)
        },
        RenderTask::Right(img) => if right_configured {
            Ok(seq![(Side::Right, img)])
        } else {
            Err(RenderError::RightNotConfigured)
        },
        RenderTask::Both(left, right) => if left_configured && right_configured {
            Ok(seq![(Side::Left, left), (Side::Right, right)])
        } else if right_configured {
            Err(RenderError::LeftNotConfigured)
        } else if left_configured {
            Err(RenderError::RightNotConfigured)
        } else {
            Err(RenderError::BothNotConfigured)
        },
    }
}

pub open spec fn job_view(job: SideJob) -> (Side, GrayImage) {
    (job.side, job.image)
}

/// The task's result: the first failed side's failure, in the order given,
/// or success where every side rendered.
pub open spec fn first_failure(outcomes: Seq<SideOutcome>) -> Result<(), RenderError>
    decreases outcomes.len(),
{
    if outcomes.len() == 0 {
        Ok(())
    } else {
        match outcomes[0].result {
            SideResult::Failed(f) => Err(RenderError::Side(outcomes[0].side, f)),
            SideResult::Rendered => first_failure(outcomes.drop_first()),
        }
    }
}

/// A task for both sides fails as a whole unless both sides are configured:
/// no side is rendered, and the error names the side that is missing, or
/// both.
pub proof fn lemma_both_needs_both_sides(
    left: GrayImage,
    right: GrayImage,
    left_configured: bool,
    right_configured: bool,
)
    requires
        !(left_configured && right_configured),
    ensures
        render_plan(RenderTask::Both(left, right), left_configured, right_configured) is Err,
        left_configured ==> render_plan(RenderTask::Both(left, right), left_configured, right_configured)
            == Err::<Seq<(Side, GrayImage)>, RenderError>(RenderError::RightNotConfigured),
        right_configured ==> render_plan(RenderTask::Both(left, right), left_configured, right_configured)
            == Err::<Seq<(Side, GrayImage)>, RenderError>(RenderError::LeftNotConfigured),
{
}

/// A plan names at most two sides, and never one twice.
pub proof fn lemma_plan_sides(task: RenderTask, left_configured: bool, right_configured: bool)
    ensures
        render_plan(task, left_configured, right_configured) matches Ok(plan) ==> 1 <= plan.len() <= 2 && (
        plan.len() == 2 ==> plan[0].0 != plan[1].0),
{
}

impl RenderTask {
    /// Splits the task into the work of each side it names, left first; fails
    /// as a whole where a side it names is not configured.
    pub fn render(self, left_configured: bool, right_configured: bool) -> (r: Result<
        Vec<SideJob>,
        RenderError,
    >)
        ensures
            r matches Ok(jobs) ==> render_plan(self, left_configured, right_configured) == Ok::<
                Seq<(Side, GrayImage)>,
                RenderError,
            >(jobs@.map_values(|j: SideJob| job_view(j))),
            r matches Err(e) ==> render_plan(self, left_configured, right_configured) == Err::<
                Seq<(Side, GrayImage)>,
                RenderError,
            >(e),
    {
        match self {
            RenderTask::Left(img) => {
                if left_configured {
                    let jobs = vec![SideJob { side: Side::Left, image: img }];
                    assert(jobs@.map_values(|j: SideJob| job_view(j)) =~= seq![(Side::Left, img)]);
                    Ok(jobs)
                } else {
                    Err(RenderError::LeftNotConfigured)
                }
            },
            RenderTask::Right(img) => {
                if right_configured {
                    let jobs = vec![SideJob { side: Side::Right, image: img }];
                    assert(jobs@.map_values(|j: SideJob| job_view(j)) =~= seq![(Side::Right, img)]);
                    Ok(jobs)
                } else {
                    Err(RenderError::RightNotConfigured)
                }
            },
            RenderTask::Both(left, right) => {
                if left_configured && right_configured {
                    let jobs = vec![
                        SideJob { side: Side::Left, image: left },
                        SideJob { side: Side::Right, image: right },
                    ];
                    assert(jobs@.map_values(|j: SideJob| job_view(j)) =~= seq![
                        (Side::Left, left),
                        (Side::Right, right),
                    ]);
                    Ok(jobs)
                } else if right_configured {
                    Err(RenderError::LeftNotConfigured)
                } else if left_configured {
                    Err(RenderError::RightNotConfigured)
                } else {
                    Err(RenderError::BothNotConfigured)
                }
            },
        }
    }
}

/// How a side's transmission ended, as that side's result.
pub fn side_result(last: Action) -> (r: SideResult)
    requires
        last is Done || last is Failed,
    ensures
        last is Done ==> r == SideResult::Rendered,
        last matches Action::Failed(e) ==> r == SideResult::Failed(SideFailure::Transport(e)),
{
    match last {
        Action::Failed(e) => SideResult::Failed(SideFailure::Transport(e)),
        _ => SideResult::Rendered,
    }
}

/// The result of a task from its sides' outcomes, given in the order the
/// sides were planned: the first failure, else success.
pub fn finish(outcomes: &Vec<SideOutcome>) -> (r: Result<(), RenderError>)
    ensures
        r == first_failure(outcomes@),
{
    let mut i: usize = 0;
    assert(outcomes@.subrange(0, outcomes@.len() as int) =~= outcomes@);
    while i < outcomes.len()
        invariant
            i <= outcomes@.len(),
            first_failure(outcomes@) == first_failure(outcomes@.subrange(i as int, outcomes@.len() as int)),
        decreases outcomes@.len() - i,
    {
        let outcome = outcomes[i];
        assert(outcomes@.subrange(i as int, outcomes@.len() as int).drop_first() =~= outcomes@.subrange(
            i + 1,
            outcomes@.len() as int,
        ));
        match outcome.result {
            SideResult::Failed(f) => {
                return Err(RenderError::Side(outcome.side, f));
            },
            SideResult::Rendered => {},
        }
        i = i + 1;
    }
    Ok(())
}

/// Tasks for images uploaded while both sides are configured: images pair up
/// in order, the first of each pair to the left; an odd one out goes left.
pub open spec fn even_odd(images: Seq<GrayImage>) -> Seq<RenderTask> {
    Seq::new(
        ((images.len() + 1) / 2) as nat,
        |k: int|
            if 2 * k + 1 < images.len() {
                RenderTask::Both(images[2 * k], images[2 * k + 1])
            } else {
                RenderTask::Left(images[2 * k])
            },
    )
}

/// Pairs images up into tasks for both sides, in order; an odd one out goes
/// to the left side alone.
pub fn queue_even_odd(images: Vec<GrayImage>) -> (r: Vec<RenderTask>)
    ensures
        r@ == even_odd(images@),
{
    let ghost all = images@;
    let mut rest = images;
    let mut tasks: Vec<RenderTask> = Vec::new();
    while rest.len() >= 2
        invariant
            2 * tasks@.len() + rest@.len() == all.len(),
            rest@ == all.subrange(2 * tasks@.len() as int, all.len() as int),
            tasks@ == even_odd(all).subrange(0, tasks@.len() as int),
        decreases rest@.len(),
    {
        let left = rest.remove(0);
        let right = rest.remove(0);
        tasks.push(RenderTask::Both(left, right));
        assert(tasks@ =~= even_odd(all).subrange(0, tasks@.len() as int));
        assert(rest@ =~= all.subrange(2 * tasks@.len() as int, all.len() as int));
    }
    if rest.len() == 1 {
        let left = rest.remove(0);
        tasks.push(RenderTask::Left(left));
    }
    assert(tasks@ =~= even_odd(all));
    tasks
}

} // verus!
