//! The fixed set of assets: which files make up the mesh animation.

use vstd::prelude::*;

verus! {

/// File number of the first frame of the first take of the animation.
pub const FIRST_TAKE_START: u32 = 334;

/// Number of frames of the first take.
pub const FIRST_TAKE_FRAMES: u32 = 37;

/// File number of the first frame of the second take of the animation.
pub const SECOND_TAKE_START: u32 = 157;

/// Number of frames of the second take.
pub const SECOND_TAKE_FRAMES: u32 = 51;

/// Number of frames of the whole animation.
pub const DANCE_FRAMES: usize = 88;

/// The take a frame of the animation comes from.
#[derive(Clone, Copy, Debug, PartialEq, Eq, Structural)]
pub enum Take {
    First,
    Second,
}

/// The file of one frame of the animation: its take and its number within
/// the take.
#[derive(Clone, Copy, Debug, PartialEq, Eq, Structural)]
pub struct DanceFile {
    pub take: Take,
    pub number: u32,
}

/// The file of frame `index` of the animation: the frames of the first
/// take, then those of the second, each in rising order of file number.
pub open spec fn dance_file_of(index: int) -> DanceFile {
    if index < FIRST_TAKE_FRAMES {
        DanceFile { take: Take::First, number: (FIRST_TAKE_START + index) as u32 }
    } else {
        DanceFile {
            take: Take::Second,
            number: (SECOND_TAKE_START + index - FIRST_TAKE_FRAMES) as u32,
        }
    }
}

/// The file of frame `index` of the animation, `None` past its last frame.
pub fn dance_file(index: usize) -> (file: Option<DanceFile>)
    ensures
        file == if index < DANCE_FRAMES {
            Some(dance_file_of(index as int))
        } else {
            None
        },
{
    if index < FIRST_TAKE_FRAMES as usize {
        Some(DanceFile { take: Take::First, number: FIRST_TAKE_START + index as u32 })
    } else if index < DANCE_FRAMES {
        Some(
            DanceFile {
                take: Take::Second,
                number: SECOND_TAKE_START + (index as u32 - FIRST_TAKE_FRAMES),
            },
        )
    } else {
        None
    }
}

/// No file is used for two frames of the animation.
pub proof fn lemma_dance_files_distinct(a: int, b: int)
    requires
        0 <= a < b < DANCE_FRAMES,
    ensures
        dance_file_of(a) != dance_file_of(b),
{
}

} // verus!
