//! The decisions of greedy text generation: generation starts from the start token, feeds
//! the model the last token, appends each token the model picks, and stops at an
//! end-of-text token or after a fixed number of steps.

use vstd::prelude::*;

verus! {

/// The token that starts every generation.
pub const BASLANGIC_TOKENI: u32 = 1;

/// The most steps a generation takes.
pub const EN_FAZLA_ADIM: usize = 64;

/// Whether the model ended the text with `t`.
pub open spec fn bitis_tokeni(t: u32) -> bool {
    t == 2 || t == 151643
}

/// A generation in progress.
pub struct TokenUretimi {
    tokenler: Vec<u32>,
    adim: usize,
    bitti: bool,
}

impl TokenUretimi {
    /// The tokens so far, the start token first.
    pub closed spec fn uretilen(self) -> Seq<u32> {
        self.tokenler@
    }

    /// The number of steps taken.
    pub closed spec fn adim_sayisi(self) -> nat {
        self.adim as nat
    }

    /// Whether the model has given an end-of-text token.
    pub closed spec fn durdu(self) -> bool {
        self.bitti
    }

    /// The state is consistent: one token per step after the start token, at most
    /// `EN_FAZLA_ADIM` steps, and no end-of-text token kept.
    pub closed spec fn gecerli(self) -> bool {
        &&& self.tokenler@.len() >= 1
        &&& self.tokenler@[0] == BASLANGIC_TOKENI
        &&& self.adim <= EN_FAZLA_ADIM
        &&& self.tokenler@.len() == self.adim + 1
        &&& forall|i: int| 1 <= i < self.tokenler@.len() ==> !bitis_tokeni(#[trigger] self.tokenler@[i])
    }

    /// Whether another step is to be taken.
    pub open spec fn devam_edecek(self) -> bool {
        !self.durdu() && self.adim_sayisi() < EN_FAZLA_ADIM
    }

    /// A new generation: only the start token, no step taken.
    pub fn yeni() -> (r: TokenUretimi)
        ensures
            r.gecerli(),
            r.uretilen() == seq![BASLANGIC_TOKENI],
            r.adim_sayisi() == 0,
            !r.durdu(),
    {
        let mut tokenler: Vec<u32> = Vec::new();
        tokenler.push(BASLANGIC_TOKENI);
        let r = TokenUretimi { tokenler, adim: 0, bitti: false };
        assert(r.tokenler@ =~= seq![BASLANGIC_TOKENI]);
        r
    }

    /// Whether another step is to be taken: the model has not ended the text and fewer
    /// than `EN_FAZLA_ADIM` steps were taken.
    pub fn devam_mi(&self) -> (r: bool)
        ensures
            r == self.devam_edecek(),
    {
        !self.bitti && self.adim < EN_FAZLA_ADIM
    }

    /// The token to give the model next: the last one kept.
    pub fn son_token(&self) -> (r: u32)
        requires
            self.gecerli(),
        ensures
            r == self.uretilen().last(),
    {
        self.tokenler[self.tokenler.len() - 1]
    }

    /// One step with the token `sonraki` that the model picked: an end-of-text token
    /// ends the generation and is not kept; any other token is appended.
    pub fn ilerle(&mut self, sonraki: u32)
        requires
            old(self).gecerli(),
            old(self).devam_edecek(),
        ensures
            final(self).gecerli(),
            bitis_tokeni(sonraki) ==> final(self).durdu() && final(self).uretilen() == old(
                self,
            ).uretilen() && final(self).adim_sayisi() == old(self).adim_sayisi(),
            !bitis_tokeni(sonraki) ==> !final(self).durdu() && final(self).uretilen() == old(
                self,
            ).uretilen().push(sonraki) && final(self).adim_sayisi() == old(self).adim_sayisi()
                + 1,
            sonraki == 2 || sonraki == 151643 ==> final(self).durdu() && final(self).uretilen()
                == old(self).uretilen(),
            sonraki != 2 && sonraki != 151643 ==> !final(self).durdu() && final(self).uretilen()
                == old(self).uretilen().push(sonraki),
    {
        if sonraki == 2 || sonraki == 151643 {
            self.bitti = true;
        } else {
            self.tokenler.push(sonraki);
            self.adim = self.adim + 1;
        }
    }

    /// The tokens so far, the start token first.
    pub fn tokenler(&self) -> (r: &Vec<u32>)
        ensures
            r@ == self.uretilen(),
    {
        &self.tokenler
    }
}

/// Whatever the model answers, a generation holds the start token first, at most
/// `EN_FAZLA_ADIM` more tokens, and no end-of-text token.
pub proof fn lemma_uretim_sinirlari(u: TokenUretimi)
    requires
        u.gecerli(),
    ensures
        u.uretilen().len() >= 1,
        u.uretilen()[0] == BASLANGIC_TOKENI,
        u.uretilen().len() <= EN_FAZLA_ADIM + 1,
        forall|i: int| 1 <= i < u.uretilen().len() ==> !bitis_tokeni(#[trigger] u.uretilen()[i]),
{
}

/// The two end-of-text tokens, 2 and 151643, and no other token, end the generation, and
/// they are never kept: no generation, whatever the model answered, holds either of them
/// after its start token.
pub proof fn lemma_bitis_tokenleri(u: TokenUretimi, t: u32)
    requires
        u.gecerli(),
    ensures
        forall|i: int|
            1 <= i < u.uretilen().len() ==> #[trigger] u.uretilen()[i] != 2 && u.uretilen()[i]
                != 151643,
        (t == 2 || t == 151643) <==> bitis_tokeni(t),
{
    assert forall|i: int| 1 <= i < u.uretilen().len() implies #[trigger] u.uretilen()[i] != 2
        && u.uretilen()[i] != 151643 by {
        lemma_uretim_sinirlari(u);
    }
}

} // verus!
