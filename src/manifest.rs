use vstd::prelude::*;
use crate::text::same_text;

verus! {

/// Build recipe for a C++ project built with make.
pub const CPP_DOCKERFILE: &'static str = r#"
FROM gcc:13 AS build
WORKDIR /app
COPY . .
RUN make

FROM debian:bookworm-slim
WORKDIR /app
COPY --from=build /app/app app
CMD ["./app"]
"#;

/// Build recipe for a Java project built with Maven.
pub const JAVA_DOCKERFILE: &'static str = r#"
FROM maven:3.9-eclipse-temurin-21 AS build
WORKDIR /app
COPY . .
RUN mvn clean package -DskipTests

FROM eclipse-temurin:21-jre
WORKDIR /app
COPY --from=build /app/target/app.jar app.jar
EXPOSE 8080
CMD ["java", "-jar", "app.jar"]
"#;

/// The environment kinds for which a build manifest can be produced.
#[derive(Clone, Copy, Debug, PartialEq, Eq, Structural)]
pub enum EnvKind {
    Cpp,
    Java,
}

pub open spec fn env_of_tag(tag: Seq<char>) -> Option<EnvKind> {
    if tag == "cpp"@ {
        Some(EnvKind::Cpp)
    } else if tag == "java"@ {
        Some(EnvKind::Java)
    } else {
        None
    }
}

pub open spec fn manifest_spec(k: EnvKind) -> Seq<char> {
    match k {
        EnvKind::Cpp => CPP_DOCKERFILE@,
        EnvKind::Java => JAVA_DOCKERFILE@,
    }
}

impl EnvKind {
    /// The kind that a tag names; any other tag is unsupported, with no fallback.
    pub fn from_tag(tag: &str) -> (r: Option<EnvKind>)
        ensures
            r == env_of_tag(tag@),
    {
        if same_text(tag, "cpp") {
            Some(EnvKind::Cpp)
        } else if same_text(tag, "java") {
            Some(EnvKind::Java)
        } else {
            None
        }
    }

    /// The build manifest of the kind.
    pub fn manifest(self) -> (r: &'static str)
        ensures
            r@ == manifest_spec(self),
    {
        match self {
            EnvKind::Cpp => CPP_DOCKERFILE,
            EnvKind::Java => JAVA_DOCKERFILE,
        }
    }
}

/// The manifest for an environment tag, or `None` where the tag names no kind.
pub fn manifest_for_tag(tag: &str) -> (r: Option<&'static str>)
    ensures
        r.is_some() == env_of_tag(tag@).is_some(),
        r.is_some() ==> r.unwrap()@ == manifest_spec(env_of_tag(tag@).unwrap()),
{
    match EnvKind::from_tag(tag) {
        Some(k) => Some(k.manifest()),
        None => None,
    }
}

} // verus!
