//! Batch image-resizing library.
//!
//! Given a directory tree read into plain data, the [`Resizer`] collects the
//! paths of `png`/`jpg`/`jpeg` files into a queue ([`Resizer::collect`]) and
//! decides and performs the resize for one image's bytes at a time
//! ([`Resizer::resize_file`]). A file is skipped exactly when its width
//! already equals the target width; otherwise it is stretched to the exact
//! target dimensions or fitted within them, and re-encoded in its original
//! container format for the caller to write back in place.

pub mod codec;
pub mod conferror;
pub mod config;
pub mod discover;
pub mod pathfilter;

use vstd::prelude::*;
use crate::codec::{decoded_dims, encodable, fit_dims, ImageBuffer, ImgFormat, REDECODE_PIXEL_BOUND};
use crate::config::Config;
use crate::discover::{discovered, Dir};

verus! {

/// Whether an image of width `w` is left untouched under configuration `c`.
///
/// The decision is deliberately width-only: a file whose width already equals
/// the target width is skipped even when its height differs from the target
/// height, in both resize modes.
pub open spec fn is_skip(w: u32, c: Config) -> bool {
    w == c.width
}

/// The width a `w x h` image has after one run under `c`.
pub open spec fn width_after(w: u32, h: u32, c: Config) -> u32 {
    if is_skip(w, c) {
        w
    } else if c.ignore_aspect {
        c.width
    } else {
        fit_dims(w, h, c.width, c.height).0
    }
}

/// The height a `w x h` image has after one run under `c`.
pub open spec fn height_after(w: u32, h: u32, c: Config) -> u32 {
    if is_skip(w, c) {
        h
    } else if c.ignore_aspect {
        c.height
    } else {
        fit_dims(w, h, c.width, c.height).1
    }
}

/// What processing one candidate file came to.
pub enum Outcome {
    /// The image already had the target width; its bytes are untouched.
    Skipped,
    /// The image was resized to `width x height`; `bytes` holds the
    /// re-encoded file, to be written back over the original.
    Resized { bytes: Vec<u8>, width: u32, height: u32 },
    /// The file's bytes did not decode as an image; the file is left alone
    /// and the rest of the run is unaffected.
    DecodeError(image::ImageError),
    /// The resized image could not be re-encoded; the file is left alone and
    /// the rest of the run is unaffected.
    EncodeError(image::ImageError),
}

/// Collects resize candidates and processes them one at a time.
pub struct Resizer {
    /// Candidate image paths, filled by [`Resizer::collect`].
    pub queue: Vec<String>,
    /// The run configuration, fixed at construction.
    pub config: Config,
}

impl Resizer {
    /// Creates a new [`Resizer`] with an empty queue.
    pub fn new(config: Config) -> (r: Resizer)
        ensures
            r.queue@.len() == 0,
            r.config == config,
    {
        Resizer { queue: Vec::new(), config }
    }

    /// Collects every candidate image path under `root` into the queue: the
    /// matching files of the root directory itself and, when recursion is
    /// enabled, of every directory below it, appended in discovery order.
    pub fn collect(&mut self, root: &Dir)
        ensures
            final(self).config == old(self).config,
            final(self).queue.deep_view() == old(self).queue.deep_view() + discovered(
                *root,
                old(self).config.recursive,
            ),
        decreases *root,
    {
        let ghost q0 = self.queue.deep_view();
        let ghost cfg0 = self.config;
        let files = root.files.len();
        proof {
            assert(root.files.deep_view().skip(0) =~= root.files.deep_view());
        }
        let mut i: usize = 0;
        while i < files
            invariant
                i <= files,
                files == root.files.len(),
                self.config == cfg0,
                self.queue.deep_view() + discover::matching(root.files.deep_view().skip(i as int))
                    == q0 + discover::matching(root.files.deep_view()),
            decreases files - i,
        {
            proof {
                assert(root.files.deep_view().skip(i as int).drop_first() =~= root.files.deep_view()
                    .skip(i as int + 1));
                assert(root.files.deep_view().skip(i as int)[0] == root.files.deep_view()[i as int]);
            }
            let ghost before = self.queue.deep_view();
            if pathfilter::has_image_extension(root.files[i].as_str()) {
                let name = root.files[i].clone();
                self.queue.push(name);
                proof {
                    assert(self.queue.deep_view() =~= before.push(
                        root.files.deep_view()[i as int],
                    ));
                    assert(before + discover::matching(root.files.deep_view().skip(i as int))
                        =~= self.queue.deep_view() + discover::matching(
                        root.files.deep_view().skip(i as int + 1),
                    ));
                }
            } else {
                proof {
                    assert(before + discover::matching(root.files.deep_view().skip(i as int))
                        =~= self.queue.deep_view() + discover::matching(
                        root.files.deep_view().skip(i as int + 1),
                    ));
                }
            }
            i = i + 1;
        }
        proof {
            assert(root.files.deep_view().skip(files as int) =~= Seq::<Seq<char>>::empty());
            assert(self.queue.deep_view() =~= q0 + discover::matching(root.files.deep_view()));
        }
        if self.config.recursive {
            let ghost q1 = self.queue.deep_view();
            let subs = root.subdirs.len();
            proof {
                assert(root.subdirs@.skip(0) =~= root.subdirs@);
            }
            let mut j: usize = 0;
            while j < subs
                invariant
                    j <= subs,
                    subs == root.subdirs.len(),
                    self.config == cfg0,
                    cfg0.recursive,
                    self.queue.deep_view() + discover::discovered_below(
                        root.subdirs@.skip(j as int),
                    ) == q1 + discover::discovered_below(root.subdirs@),
                decreases subs - j,
            {
                proof {
                    assert(root.subdirs@.skip(j as int).drop_first() =~= root.subdirs@.skip(
                        j as int + 1,
                    ));
                    assert(root.subdirs@.skip(j as int)[0] == root.subdirs@[j as int]);
                    assert(decreases_to!(*root => root.subdirs));
                    assert(decreases_to!(root.subdirs => root.subdirs[j as int]));
                }
                let ghost before = self.queue.deep_view();
                self.collect(&root.subdirs[j]);
                proof {
                    assert(before + discover::discovered_below(root.subdirs@.skip(j as int)) =~= self
                        .queue.deep_view() + discover::discovered_below(
                        root.subdirs@.skip(j as int + 1),
                    ));
                }
                j = j + 1;
            }
            proof {
                assert(root.subdirs@.skip(subs as int) =~= Seq::<Dir>::empty());
                assert(self.queue.deep_view() =~= q0 + discovered(*root, cfg0.recursive));
            }
        } else {
            proof {
                assert(q0 + discovered(*root, cfg0.recursive) =~= q0 + discover::matching(
                    root.files.deep_view(),
                ));
            }
        }
    }

    /// Decides and performs the resize for one candidate, handed the file's
    /// bytes and container format. The image is skipped exactly when its
    /// width already equals the target width (height deliberately plays no
    /// part in the decision); otherwise it is stretched to exactly the target
    /// dimensions when `ignore_aspect` is set, and fitted within them
    /// preserving the aspect ratio when not. On a resize, the returned bytes
    /// are the re-encoded image for the caller to write back in place; they
    /// decode to the stated dimensions, and the resize succeeds exactly when
    /// the chosen dimensions fit the container format.
    pub fn resize_file(&self, bytes: &[u8], format: &ImgFormat) -> (out: Outcome)
        requires
            self.config.valid(),
        ensures
            out is DecodeError <==> decoded_dims(bytes@) is None,
            out is Skipped <==> (decoded_dims(bytes@) matches Some(d) && is_skip(d.0, self.config)),
            decoded_dims(bytes@) matches Some(d) ==> (!is_skip(d.0, self.config) ==> (out is Resized
                <==> encodable(
                *format,
                width_after(d.0, d.1, self.config),
                height_after(d.0, d.1, self.config),
            ))),
            (decoded_dims(bytes@) matches Some(d) && !is_skip(d.0, self.config)) ==> (out is Resized
                || out is EncodeError),
            out matches Outcome::Resized { bytes: b, width, height } ==> (decoded_dims(bytes@)
                matches Some(d) && {
                &&& !is_skip(d.0, self.config)
                &&& width == width_after(d.0, d.1, self.config)
                &&& height == height_after(d.0, d.1, self.config)
                &&& width <= self.config.width
                &&& height <= self.config.height
                &&& self.config.ignore_aspect ==> width == self.config.width && height
                    == self.config.height
                &&& width as int * height as int <= REDECODE_PIXEL_BOUND as int ==> decoded_dims(
                    b@,
                ) == Some((width, height))
            }),
    {
        let img = match ImageBuffer::decode(bytes) {
            Ok(img) => img,
            Err(e) => { return Outcome::DecodeError(e) },
        };
        if img.get_width() == self.config.width {
            return Outcome::Skipped;
        }
        let resized = if self.config.ignore_aspect {
            img.resize_stretch(self.config.width, self.config.height)
        } else {
            img.resize_to_fit(self.config.width, self.config.height)
        };
        let encoded = resized.encode(format);
        encode_outcome(encoded, resized.get_width(), resized.get_height())
    }

    /// The source path of the run.
    pub fn src(&self) -> (r: &String)
        ensures
            r == &self.config.src,
    {
        &self.config.src
    }

    /// The target width of the run.
    pub fn width(&self) -> (r: u32)
        ensures
            r == self.config.width,
    {
        self.config.width
    }

    /// The target height of the run.
    pub fn height(&self) -> (r: u32)
        ensures
            r == self.config.height,
    {
        self.config.height
    }

    /// Whether resizing stretches to the exact target dimensions.
    pub fn ignore_aspect(&self) -> (r: bool)
        ensures
            r == self.config.ignore_aspect,
    {
        self.config.ignore_aspect
    }

    /// Whether discovery descends into subdirectories.
    pub fn recursive(&self) -> (r: bool)
        ensures
            r == self.config.recursive,
    {
        self.config.recursive
    }
}

/// Folds the encoder's verdict on an image resized to `width x height` into
/// the run's outcome: successfully encoded bytes are handed back to be
/// written over the original file, and an encoder error is reported as
/// [`Outcome::EncodeError`], leaving the file alone.
pub fn encode_outcome(encoded: Result<Vec<u8>, image::ImageError>, width: u32, height: u32) -> (out:
    Outcome)
    ensures
        encoded matches Ok(b) ==> (out matches Outcome::Resized {
            bytes,
            width: w,
            height: h,
        } && bytes@ == b@ && w == width && h == height),
        encoded matches Err(e) ==> (out matches Outcome::EncodeError(e2) && e2 == e),
{
    match encoded {
        Ok(bytes) => Outcome::Resized { bytes, width, height },
        Err(e) => Outcome::EncodeError(e),
    }
}

/// After one stretch-mode run an image has the target width whatever its
/// starting dimensions, so the next run under the same configuration skips
/// it and leaves its dimensions as they are. (Fit mode has no such fixpoint
/// after a single run: when the height is the binding side, the resized
/// width stays below the target width.)
pub proof fn lemma_stretch_rerun_skips(w: u32, h: u32, c: Config)
    requires
        c.ignore_aspect,
    ensures
        is_skip(width_after(w, h, c), c),
        width_after(width_after(w, h, c), height_after(w, h, c), c) == width_after(w, h, c),
        height_after(width_after(w, h, c), height_after(w, h, c), c) == height_after(w, h, c),
{
}

/// Idempotence of a run: over a set of images whose widths all already equal
/// the target width, every file is skipped and every dimension is unchanged,
/// so a second run under the same configuration skips every file again.
pub proof fn lemma_rerun_changes_nothing(dims: Seq<(u32, u32)>, c: Config)
    requires
        forall|i: int| 0 <= i < dims.len() ==> (#[trigger] dims[i]).0 == c.width,
    ensures
        forall|i: int| 0 <= i < dims.len() ==> is_skip((#[trigger] dims[i]).0, c),
        forall|i: int|
            0 <= i < dims.len() ==> width_after((#[trigger] dims[i]).0, dims[i].1, c) == dims[i].0
                && height_after(dims[i].0, dims[i].1, c) == dims[i].1,
{
}

} // verus!
