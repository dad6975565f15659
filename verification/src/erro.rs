use vstd::prelude::*;

verus! {

/// Why a fit was refused.
#[derive(Clone, Copy, Debug, PartialEq, Eq, Structural)]
pub enum ErroAjuste {
    /// The two series differ in length, or hold no sample.
    ShapeMismatch,
    /// The periods do not vary, so no slope is defined.
    DegenerateInput,
}

impl ErroAjuste {
    /// The text shown for this error.
    pub open spec fn texto(self) -> Seq<char> {
        match self {
            ErroAjuste::ShapeMismatch => "Os vetores devem ter o mesmo tamanho e não podem ser vazios."@,
            ErroAjuste::DegenerateInput => "Divisão por zero ao calcular os coeficientes."@,
        }
    }

    /// Renders the error as the text of `texto`.
    pub fn mensagem(&self) -> (r: String)
        ensures
            r@ == self.texto(),
    {
        match self {
            ErroAjuste::ShapeMismatch => "Os vetores devem ter o mesmo tamanho e não podem ser vazios.".to_owned(),
            ErroAjuste::DegenerateInput => "Divisão por zero ao calcular os coeficientes.".to_owned(),
        }
    }
}

} // verus!
