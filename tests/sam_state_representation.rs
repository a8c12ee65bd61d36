use std::fmt;

use sam_pattern::SamStateRepresentation;

#[derive(Debug, Clone)]
pub struct SamError {
    message: String,
}

impl fmt::Display for SamError {
    fn fmt(&self, f: &mut fmt::Formatter) -> fmt::Result {
        f.write_str(&self.message)
    }
}

#[derive(Debug, Clone)]
pub struct LauncherSamModel {
    pub counter: Option<u8>,
    pub started: bool,
    pub launched: bool,
}

#[derive(Debug)]
pub struct LauncherSamState1;

impl SamStateRepresentation for LauncherSamState1 {
    type Result = ();
    type RepresentationData = Self;
    type SamModel = LauncherSamModel;
    type Error = SamError;

    fn representation_spec(
        data: LauncherSamModel,
        representation_data: Self,
    ) -> Result<(), SamError> {
        Self::representation(data, representation_data)
    }

    fn representation(
        data: LauncherSamModel,
        _representation_data: Self,
    ) -> Result<(), SamError> {
        assert_eq!(data.started, false);
        Ok(())
    }
}

#[derive(Debug)]
pub struct LauncherSamState2;

impl SamStateRepresentation for LauncherSamState2 {
    type Result = String;
    type RepresentationData = Self;
    type SamModel = LauncherSamModel;
    type Error = SamError;

    fn representation_spec(
        data: LauncherSamModel,
        representation_data: Self,
    ) -> Result<String, SamError> {
        Self::representation(data, representation_data)
    }

    fn representation(
        data: LauncherSamModel,
        _representation_data: Self,
    ) -> Result<String, SamError> {
        Ok(format!("{:?}", data))
    }
}

#[test]
fn representation_unit() {
    let launcher_sam_model = LauncherSamModel {
        counter: Some(10),
        started: false,
        launched: false,
    };
    let _: () = LauncherSamState1::representation(launcher_sam_model, LauncherSamState1).unwrap();
}

#[test]
fn representation_string() {
    let launcher_sam_model = LauncherSamModel {
        counter: Some(10),
        started: false,
        launched: false,
    };
    let result: String =
        LauncherSamState2::representation(launcher_sam_model, LauncherSamState2).unwrap();
    assert_eq!(
        result.as_str(),
        "LauncherSamModel { counter: Some(10), started: false, launched: false }"
    );
}
