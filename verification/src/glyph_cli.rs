//! The glyph tool's command surface: the parsed argument shape, the render
//! mode it selects, and the frame count reported for an existing stream
//! file.

use vstd::prelude::*;

verus! {

/// The glyph tool's arguments after parsing: exactly one action (a single
/// character, a whole string, or file information), with grid size and file
/// path.
pub struct GlyphCli {
    pub char: Option<char>,
    pub string: Option<String>,
    pub mode: Option<CliAnimationMode>,
    pub info: bool,
    pub grid_size: u8,
    pub file: String,
}

/// The render mode named on the command line.
#[derive(Clone)]
pub enum CliAnimationMode {
    Next,
    Scroll,
}

/// The number of frames a stream file holds: its byte count, taken modulo
/// the byte range since the count is carried in a single byte, divided by
/// the grid size.  A byte count that is no multiple of the grid size is
/// invalid.
pub fn get_frame_count(buffer: &Vec<u8>, grid_size: u8) -> (r: Result<u8, String>)
    requires
        grid_size != 0,
    ensures
        buffer@.len() % (grid_size as nat) != 0 ==> (r matches Err(m) && m@
            == "Invalid frame data"@),
        buffer@.len() % (grid_size as nat) == 0 ==> (r matches Ok(c) && c == ((buffer@.len() % 256)
            as u8) / grid_size),
{
    if buffer.len() % grid_size as usize != 0 {
        Err("Invalid frame data".to_owned())
    } else {
        let truncated: u8 = (buffer.len() % 256) as u8;
        let frame_count = truncated / grid_size;
        Ok(frame_count)
    }
}

} // verus!
