//! The shader source file format: one text file holding a vertex section and
//! a fragment section, delimited by the marker lines `#type vertex` and
//! `#type fragment`.  Parsing accumulates lines into the currently active
//! section and switches section on a marker; lines before the first marker
//! are discarded.  Reading the file itself is the caller's business: the
//! functions here work on the file's lines.
use vstd::prelude::*;
use vstd::string::*;

verus! {

/// The marker line that switches accumulation to the vertex section.
pub open spec fn spec_vertex_marker() -> Seq<char> {
    "#type vertex"@
}

/// The marker line that switches accumulation to the fragment section.
pub open spec fn spec_fragment_marker() -> Seq<char> {
    "#type fragment"@
}

/// A line that switches the active section rather than belonging to one.
pub open spec fn is_marker(line: Seq<char>) -> bool {
    line == spec_vertex_marker() || line == spec_fragment_marker()
}

/// The section lines are being accumulated into.  Lines seen before the
/// first marker belong to no section and are discarded.
#[derive(Clone, Copy)]
pub enum ActiveSection {
    Discard,
    Vertex,
    Fragment,
}

/// What parsing `lines` yields when the scan starts in section `sec`: the
/// vertex lines and the fragment lines, in order, marker lines excluded.
pub open spec fn spec_parse_sections(lines: Seq<Seq<char>>, sec: ActiveSection) -> (Seq<
    Seq<char>,
>, Seq<Seq<char>>)
    decreases lines.len(),
{
    if lines.len() == 0 {
        (Seq::<Seq<char>>::empty(), Seq::<Seq<char>>::empty())
    } else {
        let line = lines[0];
        let rest = lines.drop_first();
        if line == spec_vertex_marker() {
            spec_parse_sections(rest, ActiveSection::Vertex)
        } else if line == spec_fragment_marker() {
            spec_parse_sections(rest, ActiveSection::Fragment)
        } else {
            let tail = spec_parse_sections(rest, sec);
            match sec {
                ActiveSection::Discard => tail,
                ActiveSection::Vertex => (seq![line] + tail.0, tail.1),
                ActiveSection::Fragment => (tail.0, seq![line] + tail.1),
            }
        }
    }
}

/// The lines of a shader source file assembled from a vertex section and a
/// fragment section: each section under its marker line.
pub open spec fn spec_build_shader_source(v: Seq<Seq<char>>, f: Seq<Seq<char>>) -> Seq<
    Seq<char>,
> {
    seq![spec_vertex_marker()] + v + seq![spec_fragment_marker()] + f
}

/// Splits a labeled shader source, given as its lines, into its vertex
/// section and its fragment section.
pub fn parse_shader_source(lines: &Vec<String>) -> (r: (Vec<String>, Vec<String>))
    ensures
        r.0.deep_view() == spec_parse_sections(lines.deep_view(), ActiveSection::Discard).0,
        r.1.deep_view() == spec_parse_sections(lines.deep_view(), ActiveSection::Discard).1,
{
    let vm: String = String::from_str("#type vertex");
    let fm: String = String::from_str("#type fragment");
    let mut vertex: Vec<String> = Vec::new();
    let mut fragment: Vec<String> = Vec::new();
    let mut sec = ActiveSection::Discard;
    let mut i: usize = 0;
    let ghost full = lines.deep_view();
    let ghost goal = spec_parse_sections(full, ActiveSection::Discard);
    proof {
        assert(full.skip(0) =~= full);
        assert(vertex.deep_view() + goal.0 =~= goal.0);
        assert(fragment.deep_view() + goal.1 =~= goal.1);
    }
    while i < lines.len()
        invariant
            i <= lines.len(),
            vm@ == spec_vertex_marker(),
            fm@ == spec_fragment_marker(),
            full == lines.deep_view(),
            goal == spec_parse_sections(full, ActiveSection::Discard),
            goal.0 == vertex.deep_view() + spec_parse_sections(full.skip(i as int), sec).0,
            goal.1 == fragment.deep_view() + spec_parse_sections(full.skip(i as int), sec).1,
        decreases lines.len() - i,
    {
        let line = &lines[i];
        proof {
            assert(full.skip(i as int).drop_first() =~= full.skip(i + 1));
            assert(full.skip(i as int)[0] == line@);
        }
        let ghost prev_vertex = vertex.deep_view();
        let ghost prev_fragment = fragment.deep_view();
        if *line == vm {
            sec = ActiveSection::Vertex;
        } else if *line == fm {
            sec = ActiveSection::Fragment;
        } else {
            match sec {
                ActiveSection::Discard => {},
                ActiveSection::Vertex => {
                    vertex.push(line.clone());
                    proof {
                        assert(vertex.deep_view() =~= prev_vertex.push(line@));
                        assert(prev_vertex + (seq![line@] + spec_parse_sections(
                            full.skip(i + 1),
                            sec,
                        ).0) =~= prev_vertex.push(line@) + spec_parse_sections(
                            full.skip(i + 1),
                            sec,
                        ).0);
                    }
                },
                ActiveSection::Fragment => {
                    fragment.push(line.clone());
                    proof {
                        assert(fragment.deep_view() =~= prev_fragment.push(line@));
                        assert(prev_fragment + (seq![line@] + spec_parse_sections(
                            full.skip(i + 1),
                            sec,
                        ).1) =~= prev_fragment.push(line@) + spec_parse_sections(
                            full.skip(i + 1),
                            sec,
                        ).1);
                    }
                },
            }
        }
        i = i + 1;
    }
    proof {
        assert(full.skip(i as int) =~= Seq::<Seq<char>>::empty());
        assert(goal.0 =~= vertex.deep_view());
        assert(goal.1 =~= fragment.deep_view());
    }
    (vertex, fragment)
}

/// Assembles a shader source file, as lines, from a vertex section and a
/// fragment section: each section follows its marker line.
pub fn build_shader_source(vertex: &Vec<String>, fragment: &Vec<String>) -> (r: Vec<String>)
    ensures
        r.deep_view() == spec_build_shader_source(vertex.deep_view(), fragment.deep_view()),
{
    let mut out: Vec<String> = Vec::new();
    out.push(String::from_str("#type vertex"));
    let mut i: usize = 0;
    while i < vertex.len()
        invariant
            i <= vertex.len(),
            out.deep_view() == seq![spec_vertex_marker()] + vertex.deep_view().take(i as int),
        decreases vertex.len() - i,
    {
        let ghost prev = out.deep_view();
        out.push(vertex[i].clone());
        proof {
            assert(out.deep_view() =~= prev.push(vertex.deep_view()[i as int]));
            assert(out.deep_view() =~= seq![spec_vertex_marker()] + vertex.deep_view().take(
                i + 1,
            ));
        }
        i = i + 1;
    }
    proof {
        assert(vertex.deep_view().take(vertex.len() as int) =~= vertex.deep_view());
    }
    let ghost head = seq![spec_vertex_marker()] + vertex.deep_view();
    out.push(String::from_str("#type fragment"));
    proof {
        assert(out.deep_view() =~= head + seq![spec_fragment_marker()]);
    }
    let mut j: usize = 0;
    while j < fragment.len()
        invariant
            j <= fragment.len(),
            head == seq![spec_vertex_marker()] + vertex.deep_view(),
            out.deep_view() == head + seq![spec_fragment_marker()] + fragment.deep_view().take(
                j as int,
            ),
        decreases fragment.len() - j,
    {
        let ghost prev = out.deep_view();
        out.push(fragment[j].clone());
        proof {
            assert(out.deep_view() =~= prev.push(fragment.deep_view()[j as int]));
            assert(out.deep_view() =~= head + seq![spec_fragment_marker()]
                + fragment.deep_view().take(j + 1));
        }
        j = j + 1;
    }
    proof {
        assert(fragment.deep_view().take(fragment.len() as int) =~= fragment.deep_view());
        assert(head + seq![spec_fragment_marker()] + fragment.deep_view()
            =~= spec_build_shader_source(vertex.deep_view(), fragment.deep_view()));
    }
    out
}

/// Scanning lines that hold no marker, in an active section, keeps them all
/// in that section and leaves the other section to the rest of the scan.
proof fn lemma_parse_plain_prefix(v: Seq<Seq<char>>, rest: Seq<Seq<char>>, sec: ActiveSection)
    requires
        forall|k: int| 0 <= k < v.len() ==> !is_marker(#[trigger] v[k]),
        sec matches ActiveSection::Vertex || sec matches ActiveSection::Fragment,
    ensures
        sec matches ActiveSection::Vertex ==> spec_parse_sections(v + rest, sec).0 == v
            + spec_parse_sections(rest, sec).0 && spec_parse_sections(v + rest, sec).1
            == spec_parse_sections(rest, sec).1,
        sec matches ActiveSection::Fragment ==> spec_parse_sections(v + rest, sec).1 == v
            + spec_parse_sections(rest, sec).1 && spec_parse_sections(v + rest, sec).0
            == spec_parse_sections(rest, sec).0,
    decreases v.len(),
{
    if v.len() == 0 {
        assert(v + rest =~= rest);
    } else {
        let whole = v + rest;
        assert(whole[0] == v[0]);
        assert(!is_marker(v[0]));
        assert(whole.drop_first() =~= v.drop_first() + rest);
        lemma_parse_plain_prefix(v.drop_first(), rest, sec);
        match sec {
            ActiveSection::Vertex => {
                assert(seq![v[0]] + (v.drop_first() + spec_parse_sections(rest, sec).0) =~= v
                    + spec_parse_sections(rest, sec).0);
            },
            ActiveSection::Fragment => {
                assert(seq![v[0]] + (v.drop_first() + spec_parse_sections(rest, sec).1) =~= v
                    + spec_parse_sections(rest, sec).1);
            },
            ActiveSection::Discard => {},
        }
    }
}

/// Law: a shader source built from vertex section `v` and fragment section
/// `f` parses back to exactly `v` and `f` — the marker lines belong to
/// neither section — provided no line of `v` or `f` is itself a marker line.
pub proof fn lemma_shader_source_round_trip(v: Seq<Seq<char>>, f: Seq<Seq<char>>)
    requires
        forall|k: int| 0 <= k < v.len() ==> !is_marker(#[trigger] v[k]),
        forall|k: int| 0 <= k < f.len() ==> !is_marker(#[trigger] f[k]),
    ensures
        spec_parse_sections(spec_build_shader_source(v, f), ActiveSection::Discard).0 == v,
        spec_parse_sections(spec_build_shader_source(v, f), ActiveSection::Discard).1 == f,
{
    reveal_strlit("#type vertex");
    reveal_strlit("#type fragment");
    assert(spec_vertex_marker().len() == 12);
    assert(spec_fragment_marker().len() == 14);
    let built = spec_build_shader_source(v, f);
    assert(built[0] == spec_vertex_marker());
    assert(built.drop_first() =~= v + (seq![spec_fragment_marker()] + f));
    let mid = seq![spec_fragment_marker()] + f;
    lemma_parse_plain_prefix(v, mid, ActiveSection::Vertex);
    assert(mid[0] == spec_fragment_marker());
    assert(mid.drop_first() =~= f);
    lemma_parse_plain_prefix(f, Seq::<Seq<char>>::empty(), ActiveSection::Fragment);
    assert(f + Seq::<Seq<char>>::empty() =~= f);
    assert(spec_parse_sections(f, ActiveSection::Fragment).1 == f + spec_parse_sections(
        Seq::<Seq<char>>::empty(),
        ActiveSection::Fragment,
    ).1);
    assert(f + spec_parse_sections(Seq::<Seq<char>>::empty(), ActiveSection::Fragment).1 =~= f);
    assert(v + spec_parse_sections(mid, ActiveSection::Vertex).0 =~= v);
}

} // verus!
