//! The options of the two host commands.

use vstd::prelude::*;

verus! {

/// Options of the `read` command.
#[derive(Clone, Debug)]
pub struct ReadArguments {
    /// The path to the generated image file.
    pub image_file: String,
}

/// Options of the `write` command.
#[derive(Clone, Debug)]
pub struct WriteArguments {
    /// The path to the bootloader binary.
    pub bootloader_path: String,
    /// The path to the first image binary.
    pub image_1_path: String,
    /// The path to the second image binary; the first when absent.
    pub image_2_path: Option<String>,
    /// The path to the third image binary; the first when absent.
    pub image_3_path: Option<String>,
    /// The path to the output file.
    pub output_path: String,
}

impl WriteArguments {
    /// The path of each of the three payloads, the first standing in for a
    /// missing second or third.
    pub fn image_paths(&self) -> (r: (String, String, String))
        ensures
            r.0@ == self.image_1_path@,
            r.1@ == (match self.image_2_path {
                Some(p) => p@,
                None => self.image_1_path@,
            }),
            r.2@ == (match self.image_3_path {
                Some(p) => p@,
                None => self.image_1_path@,
            }),
    {
        let second = match &self.image_2_path {
            Some(p) => p.clone(),
            None => self.image_1_path.clone(),
        };
        let third = match &self.image_3_path {
            Some(p) => p.clone(),
            None => self.image_1_path.clone(),
        };
        (self.image_1_path.clone(), second, third)
    }
}

} // verus!
