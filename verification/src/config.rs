//! Resolution of the command-line configuration: defaulting of the mask and
//! output paths from the input path. Paths are handled as raw byte strings
//! with `/` as the separator; whether a path names an existing regular file
//! is file-system work and is reported by the caller.

use vstd::prelude::*;

use crate::error::ConfigError;

verus! {

/// The path separator byte, `/`.
pub const SEPARATOR: u8 = 47;

/// The extension separator byte, `.`.
pub const DOT: u8 = 46;

/// The raw command-line configuration: the input image path, the optional
/// mask and output paths, and the force flag.
pub struct ConfigRaw {
    pub input_path: Vec<u8>,
    pub pna_path: Option<Vec<u8>>,
    pub output_path: Option<Vec<u8>>,
    pub force: bool,
}

/// The resolved configuration: the three paths a processing run uses.
pub struct Config {
    pub png_path: Vec<u8>,
    pub pna_path: Vec<u8>,
    pub output_path: Vec<u8>,
}

/// Where the file name begins: right after the last separator, or at the
/// start of the path when it has none.
pub open spec fn file_name_start(p: Seq<u8>) -> int {
    match p.index_of_last(SEPARATOR) {
        Some(i) => i + 1,
        None => 0,
    }
}

/// The position of the dot that begins the extension, or -1 when the file
/// name has none: an extension needs a dot after the file name's first byte.
pub open spec fn extension_dot(p: Seq<u8>) -> int {
    match p.index_of_last(DOT) {
        Some(i) => if i > file_name_start(p) {
            i
        } else {
            -1
        },
        None => -1,
    }
}

/// The path with its extension replaced by `ext`, or with `.ext` appended
/// when the file name has none.
pub open spec fn with_extension(p: Seq<u8>, ext: Seq<u8>) -> Seq<u8> {
    if extension_dot(p) >= 0 {
        p.take(extension_dot(p) + 1) + ext
    } else {
        p + seq![DOT] + ext
    }
}

/// The bytes of the mask file extension, `pna`.
pub open spec fn pna_extension() -> Seq<u8> {
    seq![112u8, 110u8, 97u8]
}

/// The bytes appended to the input path's stem for the default output path,
/// `_new.png`.
pub open spec fn new_png_suffix() -> Seq<u8> {
    seq![95u8, 110u8, 101u8, 119u8, 46u8, 112u8, 110u8, 103u8]
}

/// The mask path a raw configuration names: the one given, or the input path
/// with its extension swapped to the mask format's.
pub open spec fn spec_resolved_pna_path(c: ConfigRaw) -> Seq<u8> {
    match c.pna_path {
        Some(p) => p@,
        None => with_extension(c.input_path@, pna_extension()),
    }
}

/// The output path a raw configuration names: the one given, or the input
/// path's directory and stem with `_new.png` appended.
pub open spec fn spec_resolved_output_path(c: ConfigRaw) -> Seq<u8> {
    match c.output_path {
        Some(p) => p@,
        None => {
            let stem_end = if extension_dot(c.input_path@) >= 0 {
                extension_dot(c.input_path@)
            } else {
                c.input_path@.len() as int
            };
            c.input_path@.take(stem_end) + new_png_suffix()
        },
    }
}

/// Index of the last occurrence of a byte in a path, if there is one.
fn rfind(p: &Vec<u8>, b: u8) -> (r: Option<usize>)
    ensures
        match r {
            Some(i) => p@.index_of_last(b) == Some(i as int),
            None => p@.index_of_last(b) is None,
        },
{
    let mut j: usize = p.len();
    while j > 0
        invariant
            j <= p@.len(),
            forall|k: int| j <= k < p@.len() ==> p@[k] != b,
        decreases j,
    {
        j = j - 1;
        if p[j] == b {
            proof {
                p@.index_of_last_ensures(b);
            }
            return Some(j);
        }
    }
    proof {
        p@.index_of_last_ensures(b);
        assert(forall|k: int| 0 <= k < p@.len() ==> p@[k] != b);
        if p@.contains(b) {
            let w = choose|k: int| 0 <= k < p@.len() && p@[k] == b;
            assert(p@[w] != b);
        }
    }
    None
}

/// The first `n` bytes of a path, as a fresh buffer.
fn copy_prefix(src: &Vec<u8>, n: usize) -> (r: Vec<u8>)
    requires
        n <= src@.len(),
    ensures
        r@ == src@.take(n as int),
{
    let mut out: Vec<u8> = Vec::new();
    let mut i: usize = 0;
    while i < n
        invariant
            n <= src@.len(),
            i <= n,
            out@ == src@.take(i as int),
        decreases n - i,
    {
        out.push(src[i]);
        proof {
            assert(out@ =~= src@.take(i as int + 1));
        }
        i = i + 1;
    }
    out
}

/// Appends every byte of `src` to `dst`.
fn append_all(dst: &mut Vec<u8>, src: &Vec<u8>)
    ensures
        final(dst)@ == old(dst)@ + src@,
{
    let mut i: usize = 0;
    while i < src.len()
        invariant
            i <= src@.len(),
            dst@ == old(dst)@ + src@.take(i as int),
        decreases src@.len() - i,
    {
        dst.push(src[i]);
        proof {
            assert(dst@ =~= old(dst)@ + src@.take(i as int + 1));
        }
        i = i + 1;
    }
    proof {
        assert(old(dst)@ + src@.take(src@.len() as int) =~= old(dst)@ + src@);
    }
}

/// The position of the extension dot of a path's file name, if any.
fn find_extension_dot(path: &Vec<u8>) -> (r: Option<usize>)
    ensures
        match r {
            Some(i) => extension_dot(path@) == i as int,
            None => extension_dot(path@) == -1,
        },
{
    let n: usize = path.len();
    let sep = rfind(path, SEPARATOR);
    proof {
        assert(n == path@.len());
        path@.index_of_last_ensures(SEPARATOR);
    }
    let start: usize = match sep {
        Some(i) => i + 1,
        None => 0,
    };
    match rfind(path, DOT) {
        Some(d) => if d > start {
            Some(d)
        } else {
            None
        },
        None => None,
    }
}

/// The file name of a non-empty path begins within it.
proof fn p_start_bound(p: Seq<u8>)
    ensures
        0 <= file_name_start(p) <= p.len(),
{
    p.index_of_last_ensures(SEPARATOR);
}

impl ConfigRaw {
    /// The mask path this configuration names; the caller probes the file
    /// system for it before resolving the configuration.
    pub fn resolved_pna_path(&self) -> (r: Vec<u8>)
        ensures
            r@ == spec_resolved_pna_path(*self),
    {
        match &self.pna_path {
            Some(p) => {
                let r = copy_prefix(p, p.len());
                proof {
                    assert(p@.take(p@.len() as int) =~= p@);
                }
                r
            },
            None => {
                match find_extension_dot(&self.input_path) {
                    Some(d) => {
                        let n: usize = self.input_path.len();
                        proof {
                            assert(n == self.input_path@.len());
                            self.input_path@.index_of_last_ensures(DOT);
                        }
                        let mut out = copy_prefix(&self.input_path, d + 1);
                        out.push(112u8);
                        out.push(110u8);
                        out.push(97u8);
                        proof {
                            assert(out@ =~= with_extension(self.input_path@, pna_extension()));
                        }
                        out
                    },
                    None => {
                        let mut out = copy_prefix(&self.input_path, self.input_path.len());
                        out.push(DOT);
                        out.push(112u8);
                        out.push(110u8);
                        out.push(97u8);
                        proof {
                            assert(self.input_path@.take(self.input_path@.len() as int) =~= self
                                .input_path@);
                            assert(out@ =~= with_extension(self.input_path@, pna_extension()));
                        }
                        out
                    },
                }
            },
        }
    }

    /// The output path this configuration names.
    pub fn resolved_output_path(&self) -> (r: Vec<u8>)
        ensures
            r@ == spec_resolved_output_path(*self),
    {
        match &self.output_path {
            Some(p) => {
                let r = copy_prefix(p, p.len());
                proof {
                    assert(p@.take(p@.len() as int) =~= p@);
                }
                r
            },
            None => {
                let stem_end: usize = match find_extension_dot(&self.input_path) {
                    Some(d) => d,
                    None => self.input_path.len(),
                };
                proof {
                    if extension_dot(self.input_path@) >= 0 {
                        p_start_bound(self.input_path@);
                        self.input_path@.index_of_last_ensures(DOT);
                    }
                }
                let mut out = copy_prefix(&self.input_path, stem_end);
                let suffix: Vec<u8> = vec![95u8, 110u8, 101u8, 119u8, 46u8, 112u8, 110u8, 103u8];
                append_all(&mut out, &suffix);
                proof {
                    assert(suffix@ =~= new_png_suffix());
                    assert(out@ =~= spec_resolved_output_path(*self));
                }
                out
            },
        }
    }

    /// Resolves the configuration into the three paths of a run and the
    /// force flag. The caller reports whether the input path and the
    /// resolved mask path name existing regular files; the input is checked
    /// first, as given, and the mask path only after it.
    pub fn to_config_with_force_flag(self, png_is_file: bool, pna_is_file: bool) -> (r: Result<
        (Config, bool),
        ConfigError,
    >)
        ensures
            !png_is_file ==> r == Err::<(Config, bool), ConfigError>(ConfigError::PngIsNotExist),
            png_is_file && !pna_is_file ==> r == Err::<(Config, bool), ConfigError>(
                ConfigError::InvalidPnaPath,
            ),
            png_is_file && pna_is_file ==> (r matches Ok((c, force)) && force == self.force
                && c.png_path@ == self.input_path@ && c.pna_path@ == spec_resolved_pna_path(self)
                && c.output_path@ == spec_resolved_output_path(self)),
    {
        if !png_is_file {
            return Err(ConfigError::PngIsNotExist);
        }
        if !pna_is_file {
            return Err(ConfigError::InvalidPnaPath);
        }
        let pna_path = self.resolved_pna_path();
        let output_path = self.resolved_output_path();
        let force = self.force;
        let png_path = self.input_path;
        Ok((Config { png_path, pna_path, output_path }, force))
    }
}

} // verus!
