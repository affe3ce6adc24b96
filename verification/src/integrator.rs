//! The bounce budget of a light path.
//!
//! A path starts with a number of bounces it may take. Each time its ray is
//! sent into the scene, the scene answers with a [`Bounce`]; the path then
//! either ends or goes on with one bounce less. The geometry and the colours
//! belong to the caller: here is only the decision when a path ends and what
//! it ends with.

use vstd::prelude::*;

verus! {

/// What the scene did to the ray of a path.
#[derive(Clone, Copy, PartialEq, Eq, Structural, Debug)]
pub enum Bounce {
    /// The ray hit nothing.
    Miss,
    /// The ray hit a surface whose material did not scatter it.
    Absorbed,
    /// The ray hit a surface and left it as a scattered ray.
    Scattered,
}

/// Where a light path stands.
#[derive(Clone, Copy, PartialEq, Eq, Structural, Debug)]
pub enum Path {
    /// The path goes on: its ray is sent into the scene next, and `depth`
    /// bounces remain, this one included.
    Tracing { depth: u32 },
    /// The path has ended without light: its budget ran out or a surface
    /// absorbed it.
    Black,
    /// The path has left the scene and ends with the light of the background.
    Background,
}

impl Path {
    /// The path that begins with a budget of `depth` bounces.
    pub open spec fn begun(depth: u32) -> Path {
        if depth == 0 {
            Path::Black
        } else {
            Path::Tracing { depth }
        }
    }

    /// The path after the scene answered `bounce` for its ray. A path that
    /// has ended stays as it is, and one that was handed no bounce to take is
    /// black whatever the answer.
    pub open spec fn after(self, bounce: Bounce) -> Path {
        match self {
            Path::Tracing { depth } => if depth == 0 {
                Path::Black
            } else {
                match bounce {
                    Bounce::Miss => Path::Background,
                    Bounce::Absorbed => Path::Black,
                    Bounce::Scattered => Path::begun((depth - 1) as u32),
                }
            },
            Path::Black => Path::Black,
            Path::Background => Path::Background,
        }
    }

    /// The path has ended: no ray is sent into the scene for it any more.
    pub open spec fn ended(self) -> bool {
        !(self is Tracing)
    }

    /// The path after the scene's answers `bounces`, taken in order.
    pub open spec fn after_all(self, bounces: Seq<Bounce>) -> Path
        decreases bounces.len(),
    {
        if bounces.len() == 0 {
            self
        } else {
            self.after(bounces.first()).after_all(bounces.drop_first())
        }
    }

    /// Begins a path that may take `depth` bounces. With no bounce to take
    /// the path is black at once, whatever the ray and the scene.
    pub fn start(depth: u32) -> (path: Path)
        ensures
            path == Path::begun(depth),
            depth == 0 ==> path == Path::Black,
            depth > 0 ==> path == (Path::Tracing { depth }),
    {
        if depth == 0 {
            Path::Black
        } else {
            Path::Tracing { depth }
        }
    }

    /// Moves the path on by the scene's answer for its ray: a miss ends it
    /// with the background, an absorbing surface ends it black, and a
    /// scattered ray goes on with one bounce less, or ends black where that
    /// was the last one.
    pub fn step(self, bounce: Bounce) -> (next: Path)
        ensures
            next == self.after(bounce),
            self.ended() ==> next == self,
    {
        match self {
            Path::Tracing { depth } => if depth == 0 {
                Path::Black
            } else {
                match bounce {
                    Bounce::Miss => Path::Background,
                    Bounce::Absorbed => Path::Black,
                    Bounce::Scattered => Path::start(depth - 1),
                }
            },
            Path::Black => Path::Black,
            Path::Background => Path::Background,
        }
    }
}

/// A path with bounces left whose ray misses everything ends with the
/// background.
pub proof fn miss_ends_with_background(depth: u32)
    requires
        depth > 0,
    ensures
        Path::begun(depth).after(Bounce::Miss) == Path::Background,
{
}

/// A path that has ended is not moved by anything the scene answers.
pub proof fn ended_path_stays(path: Path, bounces: Seq<Bounce>)
    requires
        path.ended(),
    ensures
        path.after_all(bounces) == path,
    decreases bounces.len(),
{
    if bounces.len() > 0 {
        ended_path_stays(path, bounces.drop_first());
    }
}

/// A path ends within its budget: after as many answers as it had bounces
/// to take, whatever they were, no ray is sent for it again.
pub proof fn path_ends_within_budget(depth: u32, bounces: Seq<Bounce>)
    requires
        bounces.len() >= depth,
    ensures
        Path::begun(depth).after_all(bounces).ended(),
    decreases depth,
{
    let path = Path::begun(depth);
    if depth == 0 {
        ended_path_stays(path, bounces);
    } else {
        let next = path.after(bounces.first());
        if next.ended() {
            ended_path_stays(next, bounces.drop_first());
        } else {
            assert(next == Path::begun((depth - 1) as u32));
            path_ends_within_budget((depth - 1) as u32, bounces.drop_first());
        }
    }
}

} // verus!
