//! Finding the pixel data of a texture: in the object itself, or in a
//! resource file of the bundle that its streaming info points at.

use vstd::prelude::*;
use vstd::slice::{slice_subrange, slice_to_vec};

use super::environment::{Environment, EnvironmentView};
use super::texture_2d::{Texture2D, Texture2DView};
use crate::chars::{chars_of, find_last, last_index, string_of};

verus! {

/// The name under which a bundle stores the resource at `path`: what
/// follows the last `/` (`archive:/CAB-x/CAB-x.resS` gives `CAB-x.resS`),
/// or the whole path where it has none.
pub open spec fn resource_name(path: Seq<char>) -> Seq<char> {
    match last_index(path, '/') {
        None => path,
        Some(i) => path.skip(i + 1),
    }
}

/// The pixel data of texture `t`: its own image data where that is not
/// empty; else the stretch of the resource that its streaming info names,
/// where the environment holds that resource and the stretch lies inside
/// it; else none.
pub open spec fn texture_data(t: Texture2DView, env: EnvironmentView) -> Option<Seq<u8>> {
    if t.image_data is Some && t.image_data->0.len() > 0 {
        t.image_data
    } else {
        match t.stream_data {
            None => None,
            Some(s) => {
                let name = resource_name(s.path);
                if env.resources.contains_key(name) && s.offset + s.size <= env.resources[name].len() {
                    Some(env.resources[name].subrange(s.offset as int, s.offset + s.size))
                } else {
                    None
                }
            },
        }
    }
}

/// The name under which a bundle stores the resource at `path`.
pub fn resource_name_of(path: &str) -> (r: String)
    ensures
        r@ == resource_name(path@),
{
    let c = chars_of(path);
    let n = c.len();
    match find_last(&c, '/') {
        None => string_of(&c, 0, n),
        Some(i) => string_of(&c, i + 1, n),
    }
}

/// Finds the pixel data of texture `t`, looking up its resource in `env`.
pub fn texture_data_of(t: &Texture2D, env: &Environment) -> (r: Option<Vec<u8>>)
    ensures
        match r {
            Some(v) => texture_data(t@, env@) == Some(v@),
            None => texture_data(t@, env@) is None,
        },
{
    if let Some(d) = &t.image_data {
        if d.len() > 0 {
            return Some(slice_to_vec(d.as_slice()));
        }
    }
    match &t.stream_data {
        None => None,
        Some(s) => {
            let name = resource_name_of(s.path.as_str());
            match env.get_cab(name.as_str()) {
                None => None,
                Some(buf) => {
                    let len = buf.len() as u64;
                    if s.offset <= len && (s.size as u64) <= len - s.offset {
                        let from = s.offset as usize;
                        let to = from + s.size as usize;
                        Some(slice_to_vec(slice_subrange(buf, from, to)))
                    } else {
                        None
                    }
                },
            }
        },
    }
}

} // verus!
