//! The glyph-dictionary repository: it reads the dictionary text through a
//! data-access capability, decodes per-row binary strings into packed row
//! bytes, builds glyphs, and hands the rendered animation stream back to the
//! capability's sink.

use vstd::prelude::*;

use crate::glyph::{glyph_animation_frames, AnimationMode, Glyph};
use crate::glyph_cli::CliAnimationMode;
use crate::json::{get_field, get_string_array, get_string_field, get_u8_field, parse_json_document};
use crate::text::{ascii_upper, char_to_string};
use vstd::arithmetic::power2::{lemma2_to64, lemma_pow2_strictly_increases, pow2};
use vstd::string::StringExecFns;

verus! {

/// How the repository reaches the glyph dictionary and where it sends the
/// rendered stream.  Implementations decide what reading and writing mean; a
/// file-backed one lives with the program around the library, an in-memory
/// one below serves the tests.
pub trait DataAccess {
    fn read_data_file(&mut self) -> Result<String, String>;

    fn write_data_file(&mut self, data: Vec<u8>) -> Result<(), String>;
}

/// An in-memory data access: reading yields a fixed result and writing
/// records the data, or fails on request.
pub struct TestDataAccess {
    pub read_result: Result<String, String>,
    pub written_data: Vec<u8>,
    pub write_should_fail: bool,
}

impl TestDataAccess {
    /// An access whose read yields the given text and whose writes succeed.
    pub fn success(input: &str) -> (r: Self)
        ensures
            r.read_result matches Ok(s) && s@ == input@,
            r.written_data@ == Seq::<u8>::empty(),
            !r.write_should_fail,
    {
        TestDataAccess {
            read_result: Ok(input.to_owned()),
            written_data: Vec::new(),
            write_should_fail: false,
        }
    }

    /// An access whose read fails with the given message.
    pub fn read_fail(msg: &str) -> (r: Self)
        ensures
            r.read_result matches Err(e) && e@ == msg@,
            r.written_data@ == Seq::<u8>::empty(),
            !r.write_should_fail,
    {
        TestDataAccess {
            read_result: Err(msg.to_owned()),
            written_data: Vec::new(),
            write_should_fail: false,
        }
    }

    /// An access whose read yields the given text but whose writes fail.
    pub fn write_fail(input: &str) -> (r: Self)
        ensures
            r.read_result matches Ok(s) && s@ == input@,
            r.written_data@ == Seq::<u8>::empty(),
            r.write_should_fail,
    {
        TestDataAccess {
            read_result: Ok(input.to_owned()),
            written_data: Vec::new(),
            write_should_fail: true,
        }
    }
}

impl DataAccess for TestDataAccess {
    fn read_data_file(&mut self) -> Result<String, String> {
        match &self.read_result {
            Ok(s) => Ok(s.clone()),
            Err(e) => Err(e.clone()),
        }
    }

    fn write_data_file(&mut self, data: Vec<u8>) -> Result<(), String> {
        if self.write_should_fail {
            Err("Simulated write error".to_owned())
        } else {
            self.written_data = data;
            Ok(())
        }
    }
}

/// What the dictionary says about itself.
pub struct GlyphMetadata {
    pub name: String,
    pub width: u8,
    pub height: u8,
    pub bit_order: String,
    pub version: u8,
}

/// A parsed glyph dictionary: its metadata, checked field by field, and the
/// document tree whose `glyphs` object the per-character lookups read.
pub struct GlyphBitmaps {
    meta: GlyphMetadata,
    doc: serde_json::Value,
}

/// Whether every character is a binary digit; an empty row has no digits.
pub open spec fn is_binary_digits(s: Seq<char>) -> bool {
    s.len() >= 1 && forall|i: int| 0 <= i < s.len() ==> s[i] == '0' || s[i] == '1'
}

/// The value of a row of binary digits, most significant digit first.
pub open spec fn binary_value(s: Seq<char>) -> nat
    decreases s.len(),
{
    if s.len() == 0 {
        0
    } else {
        binary_value(s.drop_last()) * 2 + (if s.last() == '1' {
            1nat
        } else {
            0nat
        })
    }
}

/// Whether a row string decodes into a single byte.
pub open spec fn row_decodes(s: Seq<char>) -> bool {
    s.len() <= 8 && is_binary_digits(s)
}

/// The error text a failing row yields: too wide, or holding a character
/// that is no binary digit.
pub open spec fn row_error_text(s: Seq<char>) -> Seq<char> {
    if s.len() > 8 {
        "Binary string longer than 8 bits"@
    } else {
        "Invalid binary string: "@ + s
    }
}

/// The repository around a data-access capability.
pub struct BitmapRepository<D: DataAccess> {
    pub data_access: D,
}

impl<D: DataAccess> BitmapRepository<D> {
    pub fn new(data_access: D) -> Self {
        BitmapRepository { data_access }
    }

    /// Renders the animation stream for one character in `Next` mode and
    /// hands it to the sink; the character is looked up by its ASCII
    /// uppercase form.
    pub fn generate_char_bitmap(&mut self, grid_size: u8, character: char) -> Result<(), String> {
        let bitmap = match self.get_glyph_bitmap() {
            Ok(b) => b,
            Err(message) => {
                return Err(message);
            },
        };
        let glyph_binary_data = match Self::get_glyph_bitmap_binary_data(
            &bitmap,
            ascii_upper(character),
        ) {
            Ok(d) => d,
            Err(message) => {
                return Err(message);
            },
        };
        let glyph = match Glyph::new(grid_size, glyph_binary_data) {
            Ok(g) => g,
            Err(message) => {
                return Err(message.to_owned());
            },
        };
        let animation_data = match glyph_animation_frames(vec![glyph], AnimationMode::Next) {
            Ok(d) => d,
            Err(message) => {
                return Err(message.to_owned());
            },
        };
        self.data_access.write_data_file(animation_data)
    }

    /// Renders the animation stream for a whole string in the chosen mode
    /// and hands it to the sink, one glyph per character.
    pub fn generate_string_bitmap(
        &mut self,
        grid_size: u8,
        string: String,
        mode: CliAnimationMode,
    ) -> Result<(), String>
        requires
            string@.len() > 0,
            mode is Scroll ==> 1 <= grid_size <= 8,
    {
        let bitmap = match self.get_glyph_bitmap() {
            Ok(b) => b,
            Err(message) => {
                return Err(message);
            },
        };
        let n = string.as_str().unicode_len();
        let mut glyphs: Vec<Glyph> = Vec::new();
        let mut i: usize = 0;
        while i < n
            invariant
                n == string@.len(),
                i <= n,
                glyphs@.len() == i,
                forall|q: int|
                    0 <= q < i ==> (#[trigger] glyphs@[q]).spec_width() == grid_size
                        && glyphs@[q].spec_height() == grid_size,
            decreases n - i,
        {
            let c = ascii_upper(string.as_str().get_char(i));
            let rows = match Self::get_glyph_bitmap_binary_data(&bitmap, c) {
                Ok(d) => d,
                Err(message) => {
                    return Err(message);
                },
            };
            let glyph = match Glyph::new(grid_size, rows) {
                Ok(g) => g,
                Err(message) => {
                    return Err(message.to_owned());
                },
            };
            glyphs.push(glyph);
            i += 1;
        }
        let animation_mode = match mode {
            CliAnimationMode::Next => AnimationMode::Next,
            CliAnimationMode::Scroll => AnimationMode::Scroll,
        };
        let animation_data = match glyph_animation_frames(glyphs, animation_mode) {
            Ok(d) => d,
            Err(message) => {
                return Err(message.to_owned());
            },
        };
        self.data_access.write_data_file(animation_data)
    }

    /// Reads the dictionary text, parses it, and checks its shape: metadata
    /// fields of the right types and a `glyphs` object.
    fn get_glyph_bitmap(&mut self) -> Result<GlyphBitmaps, String> {
        let input = match self.data_access.read_data_file() {
            Ok(input) => input,
            Err(message) => {
                return Err(message);
            },
        };
        let doc = match parse_json_document(input.as_str()) {
            Ok(d) => d,
            Err(e) => {
                return Err(e);
            },
        };
        let meta_value = match get_field(&doc, "meta") {
            Some(m) => m,
            None => {
                return Err("Glyph data is missing its metadata".to_owned());
            },
        };
        let name = match get_string_field(meta_value, "name") {
            Some(s) => s,
            None => {
                return Err("Glyph metadata is missing its name".to_owned());
            },
        };
        let width = match get_u8_field(meta_value, "width") {
            Some(w) => w,
            None => {
                return Err("Glyph metadata is missing its width".to_owned());
            },
        };
        let height = match get_u8_field(meta_value, "height") {
            Some(h) => h,
            None => {
                return Err("Glyph metadata is missing its height".to_owned());
            },
        };
        let bit_order = match get_string_field(meta_value, "bit_order") {
            Some(s) => s,
            None => {
                return Err("Glyph metadata is missing its bit order".to_owned());
            },
        };
        let version = match get_u8_field(meta_value, "version") {
            Some(v) => v,
            None => {
                return Err("Glyph metadata is missing its version".to_owned());
            },
        };
        let has_glyphs = match get_field(&doc, "glyphs") {
            Some(g) => g.is_object(),
            None => false,
        };
        if !has_glyphs {
            return Err("Glyph data is missing its glyph table".to_owned());
        }
        Ok(
            GlyphBitmaps {
                meta: GlyphMetadata { name, width, height, bit_order, version },
                doc,
            },
        )
    }

    /// The packed row bytes for one character of the dictionary: the rows
    /// under the character's key, each decoded as a binary string.
    pub fn get_glyph_bitmap_binary_data(bitmap: &GlyphBitmaps, character: char) -> Result<
        Vec<u8>,
        String,
    > {
        let glyphs_value = match get_field(&bitmap.doc, "glyphs") {
            Some(g) => g,
            None => {
                return Err("Glyph data is missing its glyph table".to_owned());
            },
        };
        let key = char_to_string(character);
        let glyph_vec = match get_field(glyphs_value, key.as_str()) {
            Some(rows_value) => match get_string_array(rows_value) {
                Some(rows) => rows,
                None => {
                    return Err("Glyph rows are not a list of strings".to_owned());
                },
            },
            None => {
                let msg = "Bitmap not found for character ".to_owned().concat(key.as_str());
                return Err(msg);
            },
        };
        Self::convert_bitmap_data(&glyph_vec)
    }

    /// Decodes every row of the list; the first failing row decides the
    /// error, and no partial result is handed out.
    pub fn convert_bitmap_data(string_vec: &Vec<String>) -> (r: Result<Vec<u8>, String>)
        ensures
            (r is Ok) <==> (forall|i: int|
                0 <= i < string_vec@.len() ==> row_decodes(#[trigger] string_vec@[i]@)),
            r is Ok ==> r->Ok_0@.len() == string_vec@.len() && (forall|i: int|
                0 <= i < string_vec@.len() ==> #[trigger] r->Ok_0@[i] as nat == binary_value(
                    string_vec@[i]@,
                )),
            r is Err ==> exists|i: int|
                0 <= i < string_vec@.len() && !row_decodes(#[trigger] string_vec@[i]@) && (forall|
                    j: int,
                |
                    0 <= j < i ==> row_decodes(#[trigger] string_vec@[j]@)) && r->Err_0@
                    == row_error_text(string_vec@[i]@),
    {
        let mut out: Vec<u8> = Vec::new();
        let mut i: usize = 0;
        while i < string_vec.len()
            invariant
                i <= string_vec@.len(),
                out@.len() == i,
                forall|q: int| 0 <= q < i ==> row_decodes(#[trigger] string_vec@[q]@),
                forall|q: int|
                    0 <= q < i ==> #[trigger] out@[q] as nat == binary_value(string_vec@[q]@),
            decreases string_vec@.len() - i,
        {
            match Self::binary_string_to_u8(&string_vec[i]) {
                Ok(b) => out.push(b),
                Err(e) => {
                    return Err(e);
                },
            }
            i += 1;
        }
        Ok(out)
    }

    /// Decodes one row string as a base-two number.  Rows longer than eight
    /// characters do not fit the packed byte; rows holding anything but
    /// binary digits, and empty rows, are invalid.
    pub fn binary_string_to_u8(bin_string: &String) -> (r: Result<u8, String>)
        ensures
            (r is Ok) <==> row_decodes(bin_string@),
            r is Ok ==> r->Ok_0 as nat == binary_value(bin_string@),
            r is Err ==> r->Err_0@ == row_error_text(bin_string@),
    {
        let n = bin_string.as_str().unicode_len();
        if n > 8 {
            return Err("Binary string longer than 8 bits".to_owned());
        }
        if n == 0 {
            return Err("Invalid binary string: ".to_owned().concat(bin_string.as_str()));
        }
        let mut value: u8 = 0;
        let mut i: usize = 0;
        proof {
            lemma2_to64();
        }
        while i < n
            invariant
                1 <= n <= 8,
                n == bin_string@.len(),
                i <= n,
                forall|q: int|
                    0 <= q < i ==> bin_string@[q] == '0' || #[trigger] bin_string@[q] == '1',
                value as nat == binary_value(bin_string@.take(i as int)),
                (value as nat) < pow2(i as nat),
            decreases n - i,
        {
            let c = bin_string.as_str().get_char(i);
            let digit: u8 = if c == '0' {
                0
            } else if c == '1' {
                1
            } else {
                return Err("Invalid binary string: ".to_owned().concat(bin_string.as_str()));
            };
            proof {
                lemma2_to64();
                if (i as nat) < 7 {
                    lemma_pow2_strictly_increases(i as nat, 7);
                }
                assert(pow2(i as nat) <= 128);
                assert(pow2((i + 1) as nat) == 2 * pow2(i as nat));
                let s = bin_string@.take(i + 1);
                assert(s.drop_last() =~= bin_string@.take(i as int));
                assert(s.last() == bin_string@[i as int]);
            }
            value = value * 2 + digit;
            i += 1;
        }
        proof {
            assert(bin_string@.take(n as int) =~= bin_string@);
        }
        Ok(value)
    }
}

} // verus!
