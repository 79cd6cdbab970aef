//! The passes of a render graph and the check of how they hand images to
//! each other by tag.

use vstd::prelude::*;

verus! {

/// The tag that always names the image of the swapchain. A graph whose
/// output tag is this one needs no pass that produces it.
pub const SWAPCHAIN_TAG: &'static str = "swapchain";

/// One unit of device work: the images it writes and the images it reads,
/// by tag. `render_pass` names its configuration (attachments, load and
/// store behaviour) by position in the caller's table.
#[derive(Debug)]
pub struct PassDescriptor {
    pub name: String,
    pub produces: Vec<String>,
    pub consumes: Vec<String>,
    pub render_pass: usize,
}

/// A pass as a mathematical value.
pub struct PassView {
    pub name: Seq<char>,
    pub produces: Seq<Seq<char>>,
    pub consumes: Seq<Seq<char>>,
    pub render_pass: usize,
}

impl View for PassDescriptor {
    type V = PassView;

    open spec fn view(&self) -> PassView {
        PassView {
            name: self.name@,
            produces: self.produces.deep_view(),
            consumes: self.consumes.deep_view(),
            render_pass: self.render_pass,
        }
    }
}

/// The passes of a list as mathematical values.
pub open spec fn passes_view(passes: Seq<PassDescriptor>) -> Seq<PassView> {
    Seq::new(passes.len(), |i: int| passes[i]@)
}

/// Why a graph was refused when it was built.
#[derive(Clone, Copy, Debug, PartialEq, Eq, Structural)]
pub enum GraphConfigError {
    /// Entry `slot` of the tags that pass `pass` produces is also produced
    /// by a pass declared before it.
    DuplicateProducer { pass: usize, slot: usize },
    /// No pass produces the output tag, and it is not the swapchain's tag.
    OutputNotProduced,
    /// Entry `slot` of the tags that pass `pass` consumes is produced by no
    /// pass declared before it, is no custom image and is not the output.
    UnresolvedInput { pass: usize, slot: usize },
}

/// Whether one of the first `limit` passes produces `tag`.
pub open spec fn produced_before(passes: Seq<PassView>, limit: int, tag: Seq<char>) -> bool {
    exists|i: int| 0 <= i < limit && i < passes.len() && #[trigger] passes[i].produces.contains(tag)
}

/// Whether any pass produces `tag`.
pub open spec fn produced(passes: Seq<PassView>, tag: Seq<char>) -> bool {
    produced_before(passes, passes.len() as int, tag)
}

/// How many passes produce `tag`.
pub open spec fn producer_count(passes: Seq<PassView>, tag: Seq<char>) -> nat
    decreases passes.len(),
{
    if passes.len() == 0 {
        0
    } else {
        producer_count(passes.drop_last(), tag) + if passes.last().produces.contains(tag) {
            1nat
        } else {
            0nat
        }
    }
}

/// Whether entry `slot` of what pass `pass` produces is a tag that an
/// earlier pass produces too.
pub open spec fn duplicate_at(passes: Seq<PassView>, pass: int, slot: int) -> bool {
    &&& 0 <= pass < passes.len()
    &&& 0 <= slot < passes[pass].produces.len()
    &&& produced_before(passes, pass, passes[pass].produces[slot])
}

/// Whether some tag is produced by two passes.
pub open spec fn has_duplicate(passes: Seq<PassView>) -> bool {
    exists|pass: int, slot: int| duplicate_at(passes, pass, slot)
}

/// Whether pass `pass` can read `tag`: an earlier pass produces it, or it is
/// a custom image, or it is the output tag, which names the acquired image
/// of the swapchain.
pub open spec fn resolves(
    passes: Seq<PassView>,
    custom_images: Seq<Seq<char>>,
    output_tag: Seq<char>,
    pass: int,
    tag: Seq<char>,
) -> bool {
    produced_before(passes, pass, tag) || custom_images.contains(tag) || tag == output_tag
}

/// Whether entry `slot` of what pass `pass` consumes is a tag it cannot read.
pub open spec fn unresolved_at(
    passes: Seq<PassView>,
    custom_images: Seq<Seq<char>>,
    output_tag: Seq<char>,
    pass: int,
    slot: int,
) -> bool {
    &&& 0 <= pass < passes.len()
    &&& 0 <= slot < passes[pass].consumes.len()
    &&& !resolves(passes, custom_images, output_tag, pass, passes[pass].consumes[slot])
}

/// Whether some pass consumes a tag it cannot read.
pub open spec fn has_unresolved(
    passes: Seq<PassView>,
    custom_images: Seq<Seq<char>>,
    output_tag: Seq<char>,
) -> bool {
    exists|pass: int, slot: int| unresolved_at(passes, custom_images, output_tag, pass, slot)
}

/// Whether the place `(pass, slot)` comes before `(other_pass, other_slot)`
/// when the passes are read in order and the tags of each pass in order.
pub open spec fn comes_before(pass: int, slot: int, other_pass: int, other_slot: int) -> bool {
    pass < other_pass || (pass == other_pass && slot < other_slot)
}

/// Whether the output tag names an image: it is the swapchain's tag, or a
/// pass produces it.
pub open spec fn output_named(passes: Seq<PassView>, output_tag: Seq<char>) -> bool {
    output_tag == SWAPCHAIN_TAG@ || produced(passes, output_tag)
}

/// Whether `verdict` is what the check of a graph's configuration comes to.
///
/// The checks are made in this order, and the first that fails decides: no
/// tag is produced by two passes (the first place where a tag is produced
/// again is reported); the output tag names an image; every consumed tag can
/// be read (the first place where one cannot is reported).
pub open spec fn config_verdict(
    passes: Seq<PassView>,
    custom_images: Seq<Seq<char>>,
    output_tag: Seq<char>,
    verdict: Result<(), GraphConfigError>,
) -> bool {
    match verdict {
        Err(GraphConfigError::DuplicateProducer { pass, slot }) => {
            &&& duplicate_at(passes, pass as int, slot as int)
            &&& forall|p: int, s: int|
                comes_before(p, s, pass as int, slot as int) ==> !#[trigger] duplicate_at(passes, p, s)
        },
        Err(GraphConfigError::OutputNotProduced) => {
            &&& !has_duplicate(passes)
            &&& !output_named(passes, output_tag)
        },
        Err(GraphConfigError::UnresolvedInput { pass, slot }) => {
            &&& !has_duplicate(passes)
            &&& output_named(passes, output_tag)
            &&& unresolved_at(passes, custom_images, output_tag, pass as int, slot as int)
            &&& forall|p: int, s: int|
                comes_before(p, s, pass as int, slot as int) ==> !#[trigger] unresolved_at(
                    passes,
                    custom_images,
                    output_tag,
                    p,
                    s,
                )
        },
        Ok(()) => {
            &&& !has_duplicate(passes)
            &&& output_named(passes, output_tag)
            &&& !has_unresolved(passes, custom_images, output_tag)
        },
    }
}

/// Whether `tag` is among `tags`.
pub fn tag_in(tags: &Vec<String>, tag: &String) -> (found: bool)
    ensures
        found == tags.deep_view().contains(tag@),
{
    let mut i: usize = 0;
    while i < tags.len()
        invariant
            i <= tags.len(),
            forall|j: int| 0 <= j < i ==> tags.deep_view()[j] != tag@,
        decreases tags.len() - i,
    {
        if tags[i] == *tag {
            assert(tags.deep_view()[i as int] == tag@);
            return true;
        }
        i += 1;
    }
    false
}

/// The first of the first `limit` passes that produces `tag`, if any does.
pub fn first_producer(passes: &Vec<PassDescriptor>, limit: usize, tag: &String) -> (found: Option<
    usize,
>)
    ensures
        match found {
            Some(i) => {
                &&& i < limit
                &&& i < passes.len()
                &&& passes_view(passes@)[i as int].produces.contains(tag@)
                &&& !produced_before(passes_view(passes@), i as int, tag@)
            },
            None => !produced_before(passes_view(passes@), limit as int, tag@),
        },
{
    let end = if limit < passes.len() {
        limit
    } else {
        passes.len()
    };
    let mut i: usize = 0;
    while i < end
        invariant
            i <= end <= passes.len(),
            end <= limit,
            !produced_before(passes_view(passes@), i as int, tag@),
        decreases end - i,
    {
        if tag_in(&passes[i].produces, tag) {
            return Some(i);
        }
        i += 1;
    }
    None
}

/// Whether `tag` is the swapchain's tag.
pub fn is_swapchain_tag(tag: &String) -> (b: bool)
    ensures
        b == (tag@ == SWAPCHAIN_TAG@),
{
    let reserved = SWAPCHAIN_TAG.to_owned();
    *tag == reserved
}

/// The first place where a pass produces a tag that an earlier pass
/// produces too, if there is one.
fn find_duplicate(passes: &Vec<PassDescriptor>) -> (found: Option<(usize, usize)>)
    ensures
        match found {
            Some((pass, slot)) => {
                &&& duplicate_at(passes_view(passes@), pass as int, slot as int)
                &&& forall|p: int, s: int|
                    comes_before(p, s, pass as int, slot as int) ==> !#[trigger] duplicate_at(
                        passes_view(passes@),
                        p,
                        s,
                    )
            },
            None => !has_duplicate(passes_view(passes@)),
        },
{
    let ghost views = passes_view(passes@);
    let mut pass: usize = 0;
    while pass < passes.len()
        invariant
            pass <= passes.len(),
            views == passes_view(passes@),
            forall|p: int, s: int| p < pass ==> !#[trigger] duplicate_at(views, p, s),
        decreases passes.len() - pass,
    {
        let mut slot: usize = 0;
        while slot < passes[pass as usize].produces.len()
            invariant
                pass < passes.len(),
                slot <= passes[pass as int].produces.len(),
                views == passes_view(passes@),
                forall|p: int, s: int| comes_before(p, s, pass as int, slot as int) ==> !#[trigger] duplicate_at(views, p, s),
            decreases passes[pass as int].produces.len() - slot,
        {
            let earlier = first_producer(passes, pass, &passes[pass].produces[slot]);
            assert(views[pass as int].produces[slot as int] == passes[pass as int].produces[slot as int]@);
            if earlier.is_some() {
                return Some((pass, slot));
            }
            slot += 1;
        }
        assert(views[pass as int].produces.len() == passes[pass as int].produces.len());
        pass += 1;
    }
    None
}

/// The first place where a pass consumes a tag that it cannot read, if
/// there is one.
fn find_unresolved(
    passes: &Vec<PassDescriptor>,
    custom_images: &Vec<String>,
    output_tag: &String,
) -> (found: Option<(usize, usize)>)
    ensures
        match found {
            Some((pass, slot)) => {
                &&& unresolved_at(
                    passes_view(passes@),
                    custom_images.deep_view(),
                    output_tag@,
                    pass as int,
                    slot as int,
                )
                &&& forall|p: int, s: int|
                    comes_before(p, s, pass as int, slot as int) ==> !#[trigger] unresolved_at(
                        passes_view(passes@),
                        custom_images.deep_view(),
                        output_tag@,
                        p,
                        s,
                    )
            },
            None => !has_unresolved(passes_view(passes@), custom_images.deep_view(), output_tag@),
        },
{
    let ghost views = passes_view(passes@);
    let ghost customs = custom_images.deep_view();
    let mut pass: usize = 0;
    while pass < passes.len()
        invariant
            pass <= passes.len(),
            views == passes_view(passes@),
            customs == custom_images.deep_view(),
            forall|p: int, s: int| p < pass ==> !#[trigger] unresolved_at(views, customs, output_tag@, p, s),
        decreases passes.len() - pass,
    {
        let mut slot: usize = 0;
        while slot < passes[pass as usize].consumes.len()
            invariant
                pass < passes.len(),
                slot <= passes[pass as int].consumes.len(),
                views == passes_view(passes@),
                customs == custom_images.deep_view(),
                forall|p: int, s: int|
                    comes_before(p, s, pass as int, slot as int) ==> !#[trigger] unresolved_at(
                        views,
                        customs,
                        output_tag@,
                        p,
                        s,
                    ),
            decreases passes[pass as int].consumes.len() - slot,
        {
            let tag = &passes[pass].consumes[slot];
            assert(views[pass as int].consumes[slot as int] == tag@);
            let readable = first_producer(passes, pass, tag).is_some() || tag_in(custom_images, tag)
                || *tag == *output_tag;
            assert(readable == resolves(views, customs, output_tag@, pass as int, tag@));
            if !readable {
                return Some((pass, slot));
            }
            slot += 1;
        }
        assert(views[pass as int].consumes.len() == passes[pass as int].consumes.len());
        pass += 1;
    }
    None
}

/// Checks the configuration of a graph: no tag is produced by two passes,
/// the output tag names an image, and every pass can read what it consumes.
pub fn validate(passes: &Vec<PassDescriptor>, custom_images: &Vec<String>, output_tag: &String) -> (verdict:
    Result<(), GraphConfigError>)
    ensures
        config_verdict(passes_view(passes@), custom_images.deep_view(), output_tag@, verdict),
{
    match find_duplicate(passes) {
        Some((pass, slot)) => {
            return Err(GraphConfigError::DuplicateProducer { pass, slot });
        },
        None => {},
    }
    if !is_swapchain_tag(output_tag) && first_producer(passes, passes.len(), output_tag).is_none() {
        return Err(GraphConfigError::OutputNotProduced);
    }
    match find_unresolved(passes, custom_images, output_tag) {
        Some((pass, slot)) => Err(GraphConfigError::UnresolvedInput { pass, slot }),
        None => Ok(()),
    }
}

} // verus!
