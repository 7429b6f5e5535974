//! The shader program model.  Compiling and linking happen in the graphics
//! context; the context's per-stage reports come in as values, and every
//! decision taken on them is verified: a failed stage yields
//! `ShaderCompileError` with its stage and log, a failed link yields
//! `ShaderLinkError`, and no partially-linked program is ever returned.
//! The program carries a map of uniform name to location, populated lazily
//! on first upload, with distinct names.
use crate::commands::{BindState, GlCommand, MatrixSource, UniformValue};
use crate::camera::Vec3i;
use crate::errors::{RenderError, ShaderStage};
use crate::registry::ResourceRegistry;
use vstd::prelude::*;
use vstd::string::*;

verus! {

/// What the graphics context reports for one compile or link step.
pub struct StageReport {
    pub success: bool,
    pub log: String,
}

/// The location cached for `name`, if any: the first entry with that name.
pub open spec fn spec_lookup(locs: Seq<(String, i32)>, name: Seq<char>) -> Option<i32>
    decreases locs.len(),
{
    if locs.len() == 0 {
        None
    } else if locs[0].0@ == name {
        Some(locs[0].1)
    } else {
        spec_lookup(locs.drop_first(), name)
    }
}

/// A name that is not cached matches no entry.
proof fn lemma_lookup_none(locs: Seq<(String, i32)>, name: Seq<char>)
    requires
        spec_lookup(locs, name) is None,
    ensures
        forall|i: int| 0 <= i < locs.len() ==> (#[trigger] locs[i]).0@ != name,
    decreases locs.len(),
{
    if locs.len() > 0 {
        lemma_lookup_none(locs.drop_first(), name);
        assert forall|i: int| 0 <= i < locs.len() implies (#[trigger] locs[i]).0@ != name by {
            if i > 0 {
                assert(locs.drop_first()[i - 1] == locs[i]);
            }
        }
    }
}

pub struct Shader {
    /// The linked program's handle; 0 for a program that failed to build.
    pub id: u32,
    /// Uniform name → location, populated lazily on first upload.
    pub locations: Vec<(String, i32)>,
    pub destroyed: bool,
}

impl Shader {
    /// The cache maps each name at most once.
    pub open spec fn wf(self) -> bool {
        forall|i: int, j: int|
            0 <= i < j < self.locations@.len() ==> (#[trigger] self.locations@[i]).0@ != (
            #[trigger] self.locations@[j]).0@
    }

    /// Decides the outcome of building a program from the context's
    /// reports: a failing vertex stage wins, then a failing fragment
    /// stage, then a failing link; only when all three succeeded is a
    /// program handle created and returned.
    pub fn Construct(
        reg: &mut ResourceRegistry,
        vertex_report: &StageReport,
        fragment_report: &StageReport,
        link_report: &StageReport,
    ) -> (r: Result<(Shader, GlCommand), RenderError>)
        requires
            old(reg).wf(),
            old(reg).next < u32::MAX,
        ensures
            final(reg).wf(),
            r is Ok <==> (vertex_report.success && fragment_report.success
                && link_report.success),
            !vertex_report.success ==> (r matches Err(e) && e matches
                RenderError::ShaderCompileError { stage, log } && stage == ShaderStage::Vertex
                && log@ == vertex_report.log@),
            vertex_report.success && !fragment_report.success ==> (r matches Err(e)
                && e matches RenderError::ShaderCompileError { stage, log } && stage
                == ShaderStage::Fragment && log@ == fragment_report.log@),
            vertex_report.success && fragment_report.success && !link_report.success ==> (
            r matches Err(e) && e matches RenderError::ShaderLinkError { log } && log@
                == link_report.log@),
            r is Err ==> *final(reg) == *old(reg),
            r matches Ok(ok) ==> ok.0.id != 0 && ok.0.locations@.len() == 0 && !ok.0.destroyed
                && ok.0.wf() && ok.1 == GlCommand::CreateProgram(ok.0.id) && final(reg).created@
                == old(reg).created@.push(ok.0.id),
    {
        if let Err(e) = Shader::HandleShaderCompilation(vertex_report, ShaderStage::Vertex) {
            return Err(e);
        }
        if let Err(e) = Shader::HandleShaderCompilation(fragment_report, ShaderStage::Fragment) {
            return Err(e);
        }
        if let Err(e) = Shader::HandleProgramLinkage(link_report) {
            return Err(e);
        }
        let id = reg.create();
        Ok((Shader { id, locations: Vec::new(), destroyed: false }, GlCommand::CreateProgram(id)))
    }

    /// The lenient front over `Construct`: on any failed stage the error
    /// is dropped and the returned program carries the null handle, so
    /// `IsValid`-style checks on `GetID` see an invalid program.
    pub fn New(
        reg: &mut ResourceRegistry,
        vertex_report: &StageReport,
        fragment_report: &StageReport,
        link_report: &StageReport,
    ) -> (r: (Shader, Option<GlCommand>))
        requires
            old(reg).wf(),
            old(reg).next < u32::MAX,
        ensures
            final(reg).wf(),
            r.0.wf(),
            !r.0.destroyed,
            r.0.locations@.len() == 0,
            (vertex_report.success && fragment_report.success && link_report.success) <==> r.0.id
                != 0,
            r.0.id != 0 ==> r.1 == Some(GlCommand::CreateProgram(r.0.id)),
            r.0.id == 0 ==> r.1 is None,
    {
        match Shader::Construct(reg, vertex_report, fragment_report, link_report) {
            Ok((s, cmd)) => (s, Some(cmd)),
            Err(_) => (Shader { id: 0, locations: Vec::new(), destroyed: false }, None),
        }
    }

    /// Turns one stage's compile report into the stage's outcome: a failed
    /// report carries its stage and its log out as `ShaderCompileError`.
    pub fn HandleShaderCompilation(report: &StageReport, stage: ShaderStage) -> (r: Result<
        (),
        RenderError,
    >)
        ensures
            report.success <==> r is Ok,
            !report.success ==> (r matches Err(e) && e matches RenderError::ShaderCompileError {
                stage: s,
                log,
            } && s == stage && log@ == report.log@),
    {
        if report.success {
            Ok(())
        } else {
            Err(RenderError::ShaderCompileError { stage, log: report.log.clone() })
        }
    }

    /// Turns the link report into the link outcome: a failed report
    /// carries its log out as `ShaderLinkError`.
    pub fn HandleProgramLinkage(report: &StageReport) -> (r: Result<(), RenderError>)
        ensures
            report.success <==> r is Ok,
            !report.success ==> (r matches Err(e) && e matches RenderError::ShaderLinkError { log }
                && log@ == report.log@),
    {
        if report.success {
            Ok(())
        } else {
            Err(RenderError::ShaderLinkError { log: report.log.clone() })
        }
    }

    /// The location cached for `name`, if the map holds one.
    pub fn cached_location(&self, name: &String) -> (r: Option<i32>)
        ensures
            r == spec_lookup(self.locations@, name@),
    {
        let n = self.locations.len();
        let mut i: usize = 0;
        proof {
            assert(self.locations@.skip(0) =~= self.locations@);
        }
        while i < n
            invariant
                n == self.locations@.len(),
                i <= n,
                spec_lookup(self.locations@, name@) == spec_lookup(
                    self.locations@.skip(i as int),
                    name@,
                ),
            decreases n - i,
        {
            proof {
                assert(self.locations@.skip(i as int).drop_first() =~= self.locations@.skip(
                    i + 1,
                ));
                assert(self.locations@.skip(i as int)[0] == self.locations@[i as int]);
            }
            if self.locations[i].0 == *name {
                return Some(self.locations[i].1);
            }
            i = i + 1;
        }
        proof {
            assert(self.locations@.skip(n as int) =~= Seq::<(String, i32)>::empty());
        }
        None
    }

    /// The lazily-populated map: a name already cached keeps its location
    /// and `fresh` is ignored; a name seen for the first time is cached at
    /// `fresh`, which the caller obtained from the context.
    pub fn resolve_location(&mut self, name: &String, fresh: i32) -> (loc: i32)
        requires
            old(self).wf(),
        ensures
            final(self).wf(),
            final(self).id == old(self).id,
            final(self).destroyed == old(self).destroyed,
            spec_lookup(old(self).locations@, name@) matches Some(l) ==> loc == l
                && final(self).locations@ == old(self).locations@,
            spec_lookup(old(self).locations@, name@) is None ==> final(self).locations@.len()
                == old(self).locations@.len() + 1 && final(self).locations@.last().0@ == name@
                && final(self).locations@.last().1 == fresh && final(self).locations@.drop_last()
                == old(self).locations@ && loc == fresh,
            spec_lookup(final(self).locations@, name@) == Some(loc),
    {
        match self.cached_location(name) {
            Some(l) => l,
            None => {
                proof {
                    lemma_lookup_none(self.locations@, name@);
                }
                self.locations.push((name.clone(), fresh));
                proof {
                    assert(final(self).locations@.drop_last() =~= old(self).locations@);
                    lemma_lookup_last(final(self).locations@, name@, fresh);
                }
                fresh
            },
        }
    }

    /// Uploads an integer uniform.
    pub fn UploadInt(&mut self, val: i32, location: &String, fresh: i32) -> (r: GlCommand)
        requires
            old(self).wf(),
            !old(self).destroyed,
        ensures
            final(self).wf(),
            final(self).id == old(self).id,
            !final(self).destroyed,
            r == (GlCommand::UploadUniform {
                program: old(self).id,
                location: spec_resolved(old(self).locations@, name_view(location), fresh),
                value: UniformValue::Int(val),
            }),
    {
        let loc = self.resolve_location(location, fresh);
        GlCommand::UploadUniform { program: self.id, location: loc, value: UniformValue::Int(val) }
    }

    /// Uploads a fixed-point scalar uniform.
    pub fn UploadFloat(&mut self, val: i64, location: &String, fresh: i32) -> (r: GlCommand)
        requires
            old(self).wf(),
            !old(self).destroyed,
        ensures
            final(self).wf(),
            final(self).id == old(self).id,
            !final(self).destroyed,
            r == (GlCommand::UploadUniform {
                program: old(self).id,
                location: spec_resolved(old(self).locations@, name_view(location), fresh),
                value: UniformValue::Fixed(val),
            }),
    {
        let loc = self.resolve_location(location, fresh);
        GlCommand::UploadUniform {
            program: self.id,
            location: loc,
            value: UniformValue::Fixed(val),
        }
    }

    /// Uploads a boolean uniform.
    pub fn UploadBool(&mut self, val: bool, location: &String, fresh: i32) -> (r: GlCommand)
        requires
            old(self).wf(),
            !old(self).destroyed,
        ensures
            final(self).wf(),
            final(self).id == old(self).id,
            !final(self).destroyed,
            r == (GlCommand::UploadUniform {
                program: old(self).id,
                location: spec_resolved(old(self).locations@, name_view(location), fresh),
                value: UniformValue::Bool(val),
            }),
    {
        let loc = self.resolve_location(location, fresh);
        GlCommand::UploadUniform {
            program: self.id,
            location: loc,
            value: UniformValue::Bool(val),
        }
    }

    /// Uploads a fixed-point 2-vector uniform.
    pub fn UploadVec2(&mut self, val: (i64, i64), location: &String, fresh: i32) -> (r: GlCommand)
        requires
            old(self).wf(),
            !old(self).destroyed,
        ensures
            final(self).wf(),
            final(self).id == old(self).id,
            !final(self).destroyed,
            r == (GlCommand::UploadUniform {
                program: old(self).id,
                location: spec_resolved(old(self).locations@, name_view(location), fresh),
                value: (UniformValue::Vec2 { x: val.0, y: val.1 }),
            }),
    {
        let loc = self.resolve_location(location, fresh);
        GlCommand::UploadUniform {
            program: self.id,
            location: loc,
            value: UniformValue::Vec2 { x: val.0, y: val.1 },
        }
    }

    /// Uploads a fixed-point 3-vector uniform.
    pub fn UploadVec3(&mut self, val: Vec3i, location: &String, fresh: i32) -> (r: GlCommand)
        requires
            old(self).wf(),
            !old(self).destroyed,
        ensures
            final(self).wf(),
            final(self).id == old(self).id,
            !final(self).destroyed,
            r == (GlCommand::UploadUniform {
                program: old(self).id,
                location: spec_resolved(old(self).locations@, name_view(location), fresh),
                value: UniformValue::Vec3(val),
            }),
    {
        let loc = self.resolve_location(location, fresh);
        GlCommand::UploadUniform {
            program: self.id,
            location: loc,
            value: UniformValue::Vec3(val),
        }
    }

    /// Uploads a fixed-point 4-vector uniform.
    pub fn UploadVec4(&mut self, val: (i64, i64, i64, i64), location: &String, fresh: i32) -> (r:
        GlCommand)
        requires
            old(self).wf(),
            !old(self).destroyed,
        ensures
            final(self).wf(),
            final(self).id == old(self).id,
            !final(self).destroyed,
            r == (GlCommand::UploadUniform {
                program: old(self).id,
                location: spec_resolved(old(self).locations@, name_view(location), fresh),
                value: (UniformValue::Vec4 { x: val.0, y: val.1, z: val.2, w: val.3 }),
            }),
    {
        let loc = self.resolve_location(location, fresh);
        GlCommand::UploadUniform {
            program: self.id,
            location: loc,
            value: UniformValue::Vec4 { x: val.0, y: val.1, z: val.2, w: val.3 },
        }
    }

    /// Uploads a fixed-point 2×2 matrix uniform.
    pub fn UploadMatrix2x2(&mut self, val: [i64; 4], location: &String, fresh: i32) -> (r:
        GlCommand)
        requires
            old(self).wf(),
            !old(self).destroyed,
        ensures
            final(self).wf(),
            final(self).id == old(self).id,
            !final(self).destroyed,
            r == (GlCommand::UploadUniform {
                program: old(self).id,
                location: spec_resolved(old(self).locations@, name_view(location), fresh),
                value: UniformValue::Mat2(val),
            }),
    {
        let loc = self.resolve_location(location, fresh);
        GlCommand::UploadUniform {
            program: self.id,
            location: loc,
            value: UniformValue::Mat2(val),
        }
    }

    /// Uploads a fixed-point 3×3 matrix uniform.
    pub fn UploadMatrix3x3(&mut self, val: [i64; 9], location: &String, fresh: i32) -> (r:
        GlCommand)
        requires
            old(self).wf(),
            !old(self).destroyed,
        ensures
            final(self).wf(),
            final(self).id == old(self).id,
            !final(self).destroyed,
            r == (GlCommand::UploadUniform {
                program: old(self).id,
                location: spec_resolved(old(self).locations@, name_view(location), fresh),
                value: UniformValue::Mat3(val),
            }),
    {
        let loc = self.resolve_location(location, fresh);
        GlCommand::UploadUniform {
            program: self.id,
            location: loc,
            value: UniformValue::Mat3(val),
        }
    }

    /// Uploads a 4×4 matrix uniform, described by its source parameters.
    pub fn UploadMatrix4x4(&mut self, val: MatrixSource, location: &String, fresh: i32) -> (r:
        GlCommand)
        requires
            old(self).wf(),
            !old(self).destroyed,
        ensures
            final(self).wf(),
            final(self).id == old(self).id,
            !final(self).destroyed,
            r == (GlCommand::UploadUniform {
                program: old(self).id,
                location: spec_resolved(old(self).locations@, name_view(location), fresh),
                value: UniformValue::Mat4(val),
            }),
    {
        let loc = self.resolve_location(location, fresh);
        GlCommand::UploadUniform {
            program: self.id,
            location: loc,
            value: UniformValue::Mat4(val),
        }
    }

    /// Points a sampler uniform at a texture slot.
    pub fn SetTextureSlot(&mut self, slot: i32, location: &String, fresh: i32) -> (r: GlCommand)
        requires
            old(self).wf(),
            !old(self).destroyed,
        ensures
            final(self).wf(),
            final(self).id == old(self).id,
            !final(self).destroyed,
            r == (GlCommand::UploadUniform {
                program: old(self).id,
                location: spec_resolved(old(self).locations@, name_view(location), fresh),
                value: UniformValue::Int(slot),
            }),
    {
        let loc = self.resolve_location(location, fresh);
        GlCommand::UploadUniform {
            program: self.id,
            location: loc,
            value: UniformValue::Int(slot),
        }
    }

    /// Points a sampler-array uniform at a run of texture slots; the slot
    /// values travel beside the command list.
    pub fn SetTextureSlots(&mut self, slots: &Vec<i32>, location: &String, fresh: i32) -> (r:
        GlCommand)
        requires
            old(self).wf(),
            !old(self).destroyed,
        ensures
            final(self).wf(),
            final(self).id == old(self).id,
            !final(self).destroyed,
            r == (GlCommand::UploadIntArray {
                program: old(self).id,
                location: spec_resolved(old(self).locations@, name_view(location), fresh),
                count: slots@.len() as usize,
            }),
    {
        let loc = self.resolve_location(location, fresh);
        GlCommand::UploadIntArray { program: self.id, location: loc, count: slots.len() }
    }

    /// Makes the program current; already current, it does nothing and
    /// emits no command.
    pub fn Activate(&self, state: &mut BindState) -> (r: Option<GlCommand>)
        requires
            !self.destroyed,
        ensures
            *final(state) == (BindState { program: self.id, ..*old(state) }),
            old(state).program == self.id ==> r is None,
            old(state).program != self.id ==> r == Some(GlCommand::UseProgram(self.id)),
    {
        if state.program == self.id {
            None
        } else {
            state.program = self.id;
            Some(GlCommand::UseProgram(self.id))
        }
    }

    /// Makes no program current; none current already, it does nothing and
    /// emits no command.
    pub fn DeActivate(&self, state: &mut BindState) -> (r: Option<GlCommand>)
        ensures
            *final(state) == (BindState { program: 0, ..*old(state) }),
            old(state).program == 0 ==> r is None,
            old(state).program != 0 ==> r == Some(GlCommand::UseProgram(0)),
    {
        if state.program == 0 {
            None
        } else {
            state.program = 0;
            Some(GlCommand::UseProgram(0))
        }
    }

    pub fn GetID(&self) -> (r: u32)
        ensures
            r == self.id,
    {
        self.id
    }

    /// Releases the handle; destroying again does nothing and emits no
    /// command, so the release happens exactly once.
    pub fn Destroy(&mut self) -> (r: Option<GlCommand>)
        ensures
            final(self).id == old(self).id,
            final(self).destroyed,
            old(self).destroyed ==> r is None,
            !old(self).destroyed ==> r == Some(GlCommand::DeleteProgram(old(self).id)),
    {
        if self.destroyed {
            None
        } else {
            self.destroyed = true;
            Some(GlCommand::DeleteProgram(self.id))
        }
    }
}

/// The view of a name.
pub open spec fn name_view(name: &String) -> Seq<char> {
    name@
}

/// The location an upload resolves to: the cached one, else `fresh`.
pub open spec fn spec_resolved(locs: Seq<(String, i32)>, name: Seq<char>, fresh: i32) -> i32 {
    match spec_lookup(locs, name) {
        Some(l) => l,
        None => fresh,
    }
}

/// A map whose last entry names `name` resolves `name`, provided no
/// earlier entry does.
proof fn lemma_lookup_last(locs: Seq<(String, i32)>, name: Seq<char>, fresh: i32)
    requires
        locs.len() > 0,
        locs.last().0@ == name,
        locs.last().1 == fresh,
        spec_lookup(locs.drop_last(), name) is None,
    ensures
        spec_lookup(locs, name) == Some(fresh),
    decreases locs.len(),
{
    if locs.len() == 1 {
    } else {
        assert(locs.drop_last()[0] == locs[0]);
        if locs[0].0@ == name {
        } else {
            assert(locs.drop_first().drop_last() =~= locs.drop_last().drop_first());
            assert(locs.drop_last().drop_first() == locs.drop_last().drop_first());
            lemma_lookup_last(locs.drop_first(), name, fresh);
        }
    }
}

} // verus!
